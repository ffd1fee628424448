//! Settings that come from outside.
use vstd::prelude::*;
use vstd::string::*;

use crate::error::{bad_setting, setting_error, ErrorView, SdkError};
use crate::text::{concat2, is_blank, opt_text, parse_unsigned, parsed_unsigned, trimmed};

verus! {

/// A text, unless a setting that is not blank stands in its place.
pub open spec fn overridden(own: Seq<char>, setting: Option<Seq<char>>) -> Seq<char> {
    match setting {
        Some(s) => if trimmed(s).len() == 0 {
            own
        } else {
            s
        },
        None => own,
    }
}

/// A text, unless a setting that is not blank stands in its place.
pub fn override_text(own: &str, setting: Option<String>) -> (r: String)
    ensures
        r@ == overridden(own@, opt_text(setting)),
{
    match setting {
        Some(s) => if is_blank(s.as_str()) {
            own.to_owned()
        } else {
            s
        },
        None => own.to_owned(),
    }
}

/// A setting, unless it is blank.
pub open spec fn not_blank(setting: Option<Seq<char>>) -> Option<Seq<char>> {
    match setting {
        Some(s) => if trimmed(s).len() == 0 {
            None
        } else {
            Some(s)
        },
        None => None,
    }
}

/// A setting, unless it is blank.
pub fn keep_not_blank(setting: Option<String>) -> (r: Option<String>)
    ensures
        opt_text(r) == not_blank(opt_text(setting)),
{
    match setting {
        Some(s) => if is_blank(s.as_str()) {
            None
        } else {
            Some(s)
        },
        None => None,
    }
}

/// A number of seconds, unless a setting that is a number stands in its place.
pub open spec fn seconds_or(own: u64, setting: Option<Seq<char>>) -> nat {
    match setting {
        Some(s) => match parsed_unsigned(s, u64::MAX as nat) {
            Some(n) => n,
            None => own as nat,
        },
        None => own as nat,
    }
}

/// A number of seconds, unless a setting that is a number stands in its place.
pub fn override_seconds(own: u64, setting: Option<String>) -> (r: u64)
    ensures
        r == seconds_or(own, opt_text(setting)),
{
    match setting {
        Some(s) => match parse_unsigned(s.as_str(), 0xffff_ffff_ffff_ffff) {
            Some(n) => n,
            None => own,
        },
        None => own,
    }
}

/// What is wrong where a setting is missing.
pub open spec fn missing(name: Seq<char>) -> ErrorView {
    bad_setting(name + " must be set"@, name)
}

/// A setting that must be there.
pub fn required(setting: Option<String>, name: &str) -> (r: Result<String, SdkError>)
    ensures
        match r {
            Ok(s) => setting == Some(s),
            Err(e) => setting is None && e@ == missing(name@),
        },
{
    match setting {
        Some(s) => Ok(s),
        None => Err(setting_error(concat2(name, " must be set"), name)),
    }
}

/// The first of two settings that is there.
pub fn first_set(first: Option<String>, second: Option<String>) -> (r: Option<String>)
    ensures
        r == (match first {
            Some(_) => first,
            None => second,
        }),
{
    match first {
        Some(s) => Some(s),
        None => second,
    }
}

/// A setting counts unless it is blank; it is taken as it stands.
pub proof fn settings_count_unless_blank(own: Seq<char>, setting: Seq<char>, secs: u64, name: Seq<char>)
    ensures
        overridden(own, None) == own,
        not_blank(None) is None,
        trimmed(setting).len() == 0 ==> overridden(own, Some(setting)) == own && not_blank(
            Some(setting),
        ) is None,
        trimmed(setting).len() > 0 ==> overridden(own, Some(setting)) == setting && not_blank(
            Some(setting),
        ) == Some(setting),
        seconds_or(secs, None) == secs,
        parsed_unsigned(setting, u64::MAX as nat) is None ==> seconds_or(secs, Some(setting))
            == secs,
        parsed_unsigned(setting, u64::MAX as nat) matches Some(n) ==> seconds_or(
            secs,
            Some(setting),
        ) == n,
        missing(name) == bad_setting(name + " must be set"@, name),
{
}

} // verus!
