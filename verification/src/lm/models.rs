//! Model ids that name their provider.
use vstd::prelude::*;
use vstd::string::*;

use crate::error::{bad_setting, setting_error, ErrorView, SdkError};
use crate::text::{
    concat3, concat5, contains_text, find_from_is_first, find_text, is_space, occurs_at, parted,
    split_once, str_eq, trim, trimmed, trimmed_end, trimmed_start,
};

verus! {

/// The model that a model id names for a provider: `<prefix>/<model>` or `<model>`.
pub open spec fn named_model(model: Seq<char>, label: Seq<char>, prefix: Seq<char>) -> Result<
    Seq<char>,
    ErrorView,
> {
    if trimmed(model).len() == 0 {
        Err(bad_setting("model id must not be empty for "@ + label + " requests"@, "model"@))
    } else {
        match parted(trimmed(model), "/"@) {
            None => Ok(trimmed(model)),
            Some((provider, rest)) => if provider != prefix {
                Err(
                    bad_setting(
                        label + " provider expects model ids prefixed with `"@ + prefix + "/`; got `"@
                            + provider + "`"@,
                        "model"@,
                    ),
                )
            } else if trimmed(rest).len() == 0 {
                Err(
                    bad_setting(
                        "model id must be provided after `"@ + prefix + "/` prefix"@,
                        "model"@,
                    ),
                )
            } else {
                Ok(trimmed(rest))
            },
        }
    }
}

/// The model that a model id names for a provider.
pub fn provider_model(model: &str, label: &str, prefix: &str) -> (r: Result<String, SdkError>)
    ensures
        match r {
            Ok(name) => named_model(model@, label@, prefix@) == Ok::<Seq<char>, ErrorView>(name@),
            Err(e) => named_model(model@, label@, prefix@) == Err::<Seq<char>, ErrorView>(e@),
        },
{
    let id = trim(model);
    if id.as_str().is_empty() {
        return Err(
            setting_error(concat3("model id must not be empty for ", label, " requests"), "model"),
        );
    }
    match split_once(id.as_str(), "/") {
        Some((provider, rest)) => {
            let rest = trim(rest.as_str());
            if !str_eq(provider.as_str(), prefix) {
                let mut message = concat5(
                    label,
                    " provider expects model ids prefixed with `",
                    prefix,
                    "/`; got `",
                    provider.as_str(),
                );
                message.append("`");
                return Err(setting_error(message, "model"));
            }
            if rest.as_str().is_empty() {
                return Err(
                    setting_error(
                        concat3("model id must be provided after `", prefix, "/` prefix"),
                        "model",
                    ),
                );
            }
            Ok(rest)
        },
        None => Ok(id),
    }
}

/// The prefix makes no difference: with it and without it a model goes by one name.
pub proof fn prefix_makes_no_difference(name: Seq<char>, label: Seq<char>, prefix: Seq<char>)
    requires
        name.len() > 0,
        trimmed(name) == name,
        !contains_text(name, "/"@),
        prefix.len() > 0,
        !is_space(prefix[0]),
        !contains_text(prefix, "/"@),
    ensures
        named_model(name, label, prefix) == Ok::<Seq<char>, ErrorView>(name),
        named_model(prefix + "/"@ + name, label, prefix) == Ok::<Seq<char>, ErrorView>(name),
{
    let id = prefix + "/"@ + name;
    reveal_strlit("/");
    trimmed_ends(name);
    assert(id[0] == prefix[0]);
    assert(id.last() == name.last());
    assert(trimmed(id) == id);
    parted_at_slash(prefix, name);
    find_from_is_first(name, "/"@, 0);
}

/// The first slash parts what stands on its two sides.
pub proof fn parted_at_slash(before: Seq<char>, after: Seq<char>)
    requires
        !contains_text(before, "/"@),
    ensures
        parted(before + "/"@ + after, "/"@) == Some((before, after)),
{
    let id = before + "/"@ + after;
    reveal_strlit("/");
    find_from_is_first(before, "/"@, 0);
    find_from_is_first(id, "/"@, 0);
    let at = before.len() as int;
    assert(id.subrange(at, at + 1) =~= "/"@);
    assert(occurs_at(id, "/"@, at));
    match find_text(id, "/"@) {
        Some(k) => {
            if k < at {
                assert(before.subrange(k, k + 1) =~= id.subrange(k, k + 1));
                assert(occurs_at(before, "/"@, k));
            }
            assert(k == at);
        },
        None => {},
    }
    assert(id.subrange(0, at) =~= before);
    assert(id.subrange(at + 1, id.len() as int) =~= after);
}

proof fn shorter_start(s: Seq<char>)
    ensures
        trimmed_start(s).len() <= s.len(),
        trimmed_start(s).len() == s.len() ==> trimmed_start(s) == s,
        s.len() > 0 && is_space(s[0]) ==> trimmed_start(s).len() < s.len(),
    decreases s.len(),
{
    if s.len() > 0 && is_space(s[0]) {
        shorter_start(s.drop_first());
    }
}

proof fn shorter_end(s: Seq<char>)
    ensures
        trimmed_end(s).len() <= s.len(),
        s.len() > 0 && is_space(s.last()) ==> trimmed_end(s).len() < s.len(),
    decreases s.len(),
{
    if s.len() > 0 && is_space(s.last()) {
        shorter_end(s.drop_last());
    }
}

/// A trimmed text neither begins nor ends with white space.
pub proof fn trimmed_ends(s: Seq<char>)
    requires
        s.len() > 0,
        trimmed(s) == s,
    ensures
        !is_space(s[0]),
        !is_space(s.last()),
{
    shorter_start(s);
    shorter_end(trimmed_start(s));
}

/// A blank id names no model, nor does one with another provider's prefix, nor a prefix
/// with nothing behind it; white space around the parts makes no difference.
pub proof fn models_must_be_named(model: Seq<char>, label: Seq<char>, prefix: Seq<char>)
    ensures
        trimmed(model).len() == 0 ==> named_model(model, label, prefix) == Err::<
            Seq<char>,
            ErrorView,
        >(bad_setting("model id must not be empty for "@ + label + " requests"@, "model"@)),
        trimmed(model).len() > 0 && parted(trimmed(model), "/"@) is None ==> named_model(
            model,
            label,
            prefix,
        ) == Ok::<Seq<char>, ErrorView>(trimmed(model)),
        trimmed(model).len() > 0 && parted(trimmed(model), "/"@) is Some ==> ({
            let (provider, rest) = parted(trimmed(model), "/"@)->0;
            &&& provider != prefix ==> named_model(model, label, prefix) == Err::<
                Seq<char>,
                ErrorView,
            >(
                bad_setting(
                    label + " provider expects model ids prefixed with `"@ + prefix + "/`; got `"@
                        + provider + "`"@,
                    "model"@,
                ),
            )
            &&& provider == prefix && trimmed(rest).len() == 0 ==> named_model(model, label, prefix)
                == Err::<Seq<char>, ErrorView>(
                bad_setting("model id must be provided after `"@ + prefix + "/` prefix"@, "model"@),
            )
            &&& provider == prefix && trimmed(rest).len() > 0 ==> named_model(model, label, prefix)
                == Ok::<Seq<char>, ErrorView>(trimmed(rest))
        }),
{
}

} // verus!
