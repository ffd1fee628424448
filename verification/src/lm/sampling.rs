//! Warnings of sampling parameters that a model does not take.
use vstd::prelude::*;
use vstd::string::*;

use super::interface::{GenerateRequest, GenerationConfig};
use super::openai_common::{is_reasoning_model, reasons};
use crate::seqs::listed;
use crate::text::{concat3, concat5, str_eq, texts};

verus! {

/// The sampling parameters that are set.
pub open spec fn set_params(config: GenerationConfig) -> Seq<Seq<char>> {
    listed(
        if config.temperature is Some {
            Some("temperature"@)
        } else {
            None
        },
    ) + listed(
        if config.top_p is Some {
            Some("top_p"@)
        } else {
            None
        },
    )
}

/// What stands for a parameter of a model among those warned of.
pub open spec fn warning_key(model: Seq<char>, param: Seq<char>) -> Seq<char> {
    model + "/"@ + param
}

/// Whether a parameter is set and was not warned of.
pub open spec fn is_due(
    warned: Seq<Seq<char>>,
    model: Seq<char>,
    config: GenerationConfig,
    param: Seq<char>,
) -> bool {
    set_params(config).contains(param) && !warned.contains(warning_key(model, param))
}

/// The parameters to warn of: those that are set and were not warned of.
pub open spec fn due(
    warned: Seq<Seq<char>>,
    model: Seq<char>,
    config: GenerationConfig,
) -> Seq<Seq<char>> {
    listed(
        if is_due(warned, model, config, "temperature"@) {
            Some("temperature"@)
        } else {
            None
        },
    ) + listed(
        if is_due(warned, model, config, "top_p"@) {
            Some("top_p"@)
        } else {
            None
        },
    )
}

/// What stands for parameters of a model among those warned of.
pub open spec fn warning_keys(model: Seq<char>, params: Seq<Seq<char>>) -> Seq<Seq<char>> {
    params.map_values(|param: Seq<char>| warning_key(model, param))
}

/// What was warned of after requests for models, each with its settings.
pub open spec fn warned_by(requests: Seq<(Seq<char>, GenerationConfig)>) -> Seq<Seq<char>>
    decreases requests.len(),
{
    if requests.len() == 0 {
        Seq::empty()
    } else {
        let (model, config) = requests.last();
        let before = warned_by(requests.drop_last());
        before + warning_keys(model, due(before, model, config))
    }
}

/// Whether one of the requests sets a parameter of a model.
pub open spec fn some_sets(
    requests: Seq<(Seq<char>, GenerationConfig)>,
    model: Seq<char>,
    param: Seq<char>,
) -> bool {
    exists|i: int|
        0 <= i < requests.len() && (#[trigger] requests[i]).0 == model && set_params(
            requests[i].1,
        ).contains(param)
}

/// Whether this is a sampling parameter.
pub open spec fn is_param(param: Seq<char>) -> bool {
    param == "temperature"@ || param == "top_p"@
}

/// Each parameter of each model is told apart from all others.
pub proof fn warning_keys_are_told_apart(
    model: Seq<char>,
    param: Seq<char>,
    other: Seq<char>,
    other_param: Seq<char>,
)
    requires
        is_param(param),
        is_param(other_param),
    ensures
        warning_key(model, param) == warning_key(other, other_param) <==> model == other && param
            == other_param,
{
    reveal_strlit("temperature");
    reveal_strlit("top_p");
    reveal_strlit("/");
    let a = warning_key(model, param);
    let b = warning_key(other, other_param);
    if a == b {
        assert(a.last() == param.last() && b.last() == other_param.last());
        assert("temperature"@.last() == 'e' && "top_p"@.last() == 'p');
        assert(param == other_param);
        assert(model =~= a.take(a.len() - param.len() - 1));
        assert(other =~= b.take(b.len() - param.len() - 1));
    }
}

/// Only sampling parameters are set, and each of those that are.
proof fn set_params_are_params(config: GenerationConfig, param: Seq<char>)
    ensures
        set_params(config).contains(param) <==> (param == "temperature"@
            && config.temperature is Some) || (param == "top_p"@ && config.top_p is Some),
{
    let set = set_params(config);
    if config.temperature is Some {
        assert(set[0] == "temperature"@);
    }
    if config.top_p is Some {
        assert(set.last() == "top_p"@);
    }
}

/// The parameters to warn of are those that are set and were not warned of, each once.
pub proof fn due_are_those_not_warned_of(
    warned: Seq<Seq<char>>,
    model: Seq<char>,
    config: GenerationConfig,
    param: Seq<char>,
)
    ensures
        due(warned, model, config).contains(param) <==> is_due(warned, model, config, param),
        due(warned, model, config).no_duplicates(),
{
    reveal_strlit("temperature");
    reveal_strlit("top_p");
    assert("temperature"@.len() != "top_p"@.len());
    set_params_are_params(config, param);
    let list = due(warned, model, config);
    if is_due(warned, model, config, "temperature"@) {
        assert(list[0] == "temperature"@);
    }
    if is_due(warned, model, config, "top_p"@) {
        assert(list.last() == "top_p"@);
    }
}

/// Whatever the requests, nothing is warned of twice, and a parameter of a model is
/// warned of once a request sets it.
pub proof fn each_is_warned_of_once(
    requests: Seq<(Seq<char>, GenerationConfig)>,
    model: Seq<char>,
    param: Seq<char>,
)
    requires
        is_param(param),
    ensures
        warned_by(requests).no_duplicates(),
        warned_by(requests).contains(warning_key(model, param)) <==> some_sets(
            requests,
            model,
            param,
        ),
    decreases requests.len(),
{
    if requests.len() > 0 {
        let earlier = requests.drop_last();
        let (last, config) = requests.last();
        let before = warned_by(earlier);
        let list = due(before, last, config);
        let added = warning_keys(last, list);
        let after = warned_by(requests);
        each_is_warned_of_once(earlier, model, param);
        assert forall|i: int, j: int|
            0 <= i < after.len() && 0 <= j < after.len() && i != j implies after[i] != after[j] by {
            due_are_those_not_warned_of(before, last, config, "top_p"@);
            if i >= before.len() {
                let p = list[i - before.len()];
                assert(list.contains(p));
                due_are_those_not_warned_of(before, last, config, p);
                assert(!before.contains(after[i]));
            }
            if j >= before.len() {
                let p = list[j - before.len()];
                assert(list.contains(p));
                due_are_those_not_warned_of(before, last, config, p);
                assert(!before.contains(after[j]));
            }
            if i >= before.len() && j >= before.len() {
                let p = list[i - before.len()];
                let q = list[j - before.len()];
                set_params_are_params(config, p);
                set_params_are_params(config, q);
                warning_keys_are_told_apart(last, p, last, q);
            } else if i < before.len() && j >= before.len() {
                assert(before.contains(after[i]));
            } else if i >= before.len() && j < before.len() {
                assert(before.contains(after[j]));
            }
        }
        let key = warning_key(model, param);
        if after.contains(key) {
            let i = choose|i: int| 0 <= i < after.len() && after[i] == key;
            if i < before.len() {
                assert(before.contains(key));
                let k = choose|k: int|
                    0 <= k < earlier.len() && (#[trigger] earlier[k]).0 == model && set_params(
                        earlier[k].1,
                    ).contains(param);
                assert(requests[k] == earlier[k]);
            } else {
                let p = list[i - before.len()];
                assert(list.contains(p));
                due_are_those_not_warned_of(before, last, config, p);
                set_params_are_params(config, p);
                warning_keys_are_told_apart(model, param, last, p);
                assert(requests[requests.len() - 1].0 == model);
            }
        }
        if some_sets(requests, model, param) {
            let k = choose|k: int|
                0 <= k < requests.len() && (#[trigger] requests[k]).0 == model && set_params(
                    requests[k].1,
                ).contains(param);
            if k < earlier.len() {
                assert(earlier[k] == requests[k]);
                assert(before.contains(key));
            }
            due_are_those_not_warned_of(before, last, config, param);
            if before.contains(key) {
                let i = choose|i: int| 0 <= i < before.len() && before[i] == key;
                assert(after[i] == key);
            } else {
                assert(list.contains(param));
                let i = choose|i: int| 0 <= i < list.len() && list[i] == param;
                assert(after[before.len() + i] == key);
            }
        }
    }
}

/// One more request adds what is due for it to what was warned of.
pub proof fn warnings_follow_requests(
    requests: Seq<(Seq<char>, GenerationConfig)>,
    model: Seq<char>,
    config: GenerationConfig,
)
    ensures
        warned_by(requests.push((model, config))) == warned_by(requests) + warning_keys(
            model,
            due(warned_by(requests), model, config),
        ),
{
    assert(requests.push((model, config)).drop_last() =~= requests);
}

/// The warning of a parameter that a model does not take.
pub open spec fn warning_told(model: Seq<char>, param: Seq<char>) -> Seq<char> {
    "⚠️  '"@ + param + "' is not supported by model '"@ + model
        + "' and will be ignored. Remove '"@ + param + "' from your configuration to silence this warning."@
}

/// The warning of a parameter that a model does not take.
pub fn dropped_warning(model: &str, param: &str) -> (r: String)
    ensures
        r@ == warning_told(model@, param@),
{
    let start = concat5(
        "⚠️  '",
        param,
        "' is not supported by model '",
        model,
        "' and will be ignored. Remove '",
    );
    concat3(
        start.as_str(),
        param,
        "' from your configuration to silence this warning.",
    )
}

/// What was warned of.
#[derive(Debug)]
pub struct SamplingWarnings {
    warned: Vec<String>,
}

impl View for SamplingWarnings {
    type V = Seq<Seq<char>>;

    closed spec fn view(&self) -> Seq<Seq<char>> {
        texts(self.warned@)
    }
}

impl SamplingWarnings {
    /// Nothing was warned of.
    pub fn new() -> (r: Self)
        ensures
            r@ == Seq::<Seq<char>>::empty(),
            r@ == warned_by(Seq::empty()),
    {
        let r = SamplingWarnings { warned: Vec::new() };
        assert(r@ =~= Seq::<Seq<char>>::empty());
        r
    }

    fn first_time(&mut self, model: &str, param: &str) -> (r: bool)
        ensures
            r == !old(self)@.contains(warning_key(model@, param@)),
            final(self)@ == old(self)@ + (if r {
                seq![warning_key(model@, param@)]
            } else {
                Seq::empty()
            }),
    {
        let key = concat3(model, "/", param);
        let mut i: usize = 0;
        while i < self.warned.len()
            invariant
                i <= self.warned.len(),
                *self == *old(self),
                key@ == warning_key(model@, param@),
                forall|k: int| 0 <= k < i ==> (#[trigger] self.warned@[k])@ != key@,
            decreases self.warned.len() - i,
        {
            if str_eq(self.warned[i].as_str(), key.as_str()) {
                assert(self@[i as int] == key@);
                assert(self@ =~= old(self)@ + Seq::empty());
                return false;
            }
            i = i + 1;
        }
        assert(!old(self)@.contains(key@)) by {
            if old(self)@.contains(key@) {
                let k = choose|k: int| 0 <= k < old(self)@.len() && old(self)@[k] == key@;
                assert(self.warned@[k]@ == key@);
            }
        }
        self.warned.push(key);
        assert(self@ =~= old(self)@ + seq![key@]);
        true
    }

    /// The set parameters that were not warned of before, which from now on were.
    pub fn warn_dropped_sampling_params(
        &mut self,
        model: &str,
        config: &GenerationConfig,
    ) -> (r: Vec<String>)
        ensures
            texts(r@) == due(old(self)@, model@, *config),
            final(self)@ == old(self)@ + warning_keys(model@, due(old(self)@, model@, *config)),
    {
        let ghost before = self@;
        let ghost list = due(before, model@, *config);
        proof {
            set_params_are_params(*config, "temperature"@);
            set_params_are_params(*config, "top_p"@);
            reveal_strlit("temperature");
            reveal_strlit("top_p");
            assert("temperature"@.len() != "top_p"@.len());
            warning_keys_are_told_apart(model@, "temperature"@, model@, "top_p"@);
        }
        let mut out: Vec<String> = Vec::new();
        if config.temperature.is_some() && self.first_time(model, "temperature") {
            out.push("temperature".to_owned());
        }
        let ghost between = self@;
        proof {
            let key = warning_key(model@, "top_p"@);
            if before.contains(key) {
                let k = choose|k: int| 0 <= k < before.len() && before[k] == key;
                assert(between[k] == key);
            }
            assert(between.contains(key) == before.contains(key));
        }
        if config.top_p.is_some() && self.first_time(model, "top_p") {
            out.push("top_p".to_owned());
        }
        proof {
            assert(texts(out@) =~= list);
            assert(self@ =~= before + warning_keys(model@, list));
        }
        out
    }

    /// The parameters of a request to warn of: those that its model does not take,
    /// at their first time.
    pub fn on_request(&mut self, request: &GenerateRequest, model: &str) -> (r: Vec<String>)
        ensures
            texts(r@) == (if reasons(model@) {
                due(old(self)@, model@, request.config)
            } else {
                Seq::empty()
            }),
            final(self)@ == old(self)@ + warning_keys(model@, texts(r@)),
    {
        if is_reasoning_model(model) {
            return self.warn_dropped_sampling_params(model, &request.config);
        }
        let out: Vec<String> = Vec::new();
        assert(texts(out@) =~= Seq::empty());
        assert(self@ =~= old(self)@ + warning_keys(model@, texts(out@)));
        out
    }
}

/// Temperature is told of before `top_p`, and a warning names the parameter and the model.
pub proof fn warnings_name_the_parameter(
    warned: Seq<Seq<char>>,
    model: Seq<char>,
    config: GenerationConfig,
    param: Seq<char>,
)
    ensures
        config.temperature is Some && config.top_p is Some ==> set_params(config).len() == 2
            && set_params(config)[0] == "temperature"@ && set_params(config)[1] == "top_p"@,
        config.temperature is Some && config.top_p is None ==> set_params(config)
            == seq!["temperature"@],
        config.temperature is None && config.top_p is Some ==> set_params(config)
            == seq!["top_p"@],
        config.temperature is None && config.top_p is None ==> set_params(config).len() == 0,
        config.temperature is Some && !warned.contains(model + "/"@ + "temperature"@) ==> due(
            warned,
            model,
            config,
        ).len() > 0 && due(warned, model, config)[0] == "temperature"@,
        config.top_p is Some && !warned.contains(model + "/"@ + "top_p"@) ==> due(
            warned,
            model,
            config,
        ).len() > 0 && due(warned, model, config).last() == "top_p"@,
        warning_told(model, param) == "⚠️  '"@ + param + "' is not supported by model '"@ + model
            + "' and will be ignored. Remove '"@ + param
            + "' from your configuration to silence this warning."@,
{
    set_params_are_params(config, "temperature"@);
    set_params_are_params(config, "top_p"@);
}

} // verus!
