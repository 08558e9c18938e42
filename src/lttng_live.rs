//! Parameters of the trace-format plugin's live-session source.

use vstd::prelude::*;
use crate::util::{is_word, lower_of, lowercase, rejection_message, trim, trimmed_of};
use core::str::FromStr;
use crate::error::BtResult;
use crate::value::{ParamValue, ParamValueView, Value};

verus! {

/// What the live source does when the remote tracing session it names does
/// not exist.
#[derive(Clone, Copy, PartialEq, Eq, Structural, PartialOrd, Ord, Hash, Debug)]
pub enum SessionNotFoundAction {
    /// Keep trying: the iterator reports "try again" until the session
    /// exists, and never ends. The default.
    Continue,
    /// Fail.
    Fail,
    /// End the iterator.
    End,
}

impl SessionNotFoundAction {
    pub open spec fn spec_name(self) -> Seq<char> {
        match self {
            SessionNotFoundAction::Continue => "continue"@,
            SessionNotFoundAction::Fail => "fail"@,
            SessionNotFoundAction::End => "end"@,
        }
    }

    /// The action that a lower-case name stands for.
    pub open spec fn spec_from_name(name: Seq<char>) -> Option<SessionNotFoundAction> {
        if name == "continue"@ {
            Some(SessionNotFoundAction::Continue)
        } else if name == "fail"@ {
            Some(SessionNotFoundAction::Fail)
        } else if name == "end"@ {
            Some(SessionNotFoundAction::End)
        } else {
            None
        }
    }

    /// The action of a lower-case name.
    pub fn from_name(name: &str) -> (r: Option<SessionNotFoundAction>)
        ensures
            r == Self::spec_from_name(name@),
    {
        if is_word(name, "continue") {
            Some(SessionNotFoundAction::Continue)
        } else if is_word(name, "fail") {
            Some(SessionNotFoundAction::Fail)
        } else if is_word(name, "end") {
            Some(SessionNotFoundAction::End)
        } else {
            None
        }
    }

    /// The action named by `s`, in any case, around white space.
    pub fn parse(s: &str) -> (r: Option<SessionNotFoundAction>)
        ensures
            r == Self::spec_from_name(lower_of(trimmed_of(s@))),
    {
        let lower = lowercase(trim(s));
        Self::from_name(lower.as_str())
    }

    /// The parameter value that names this action.
    pub fn as_str(&self) -> (r: &'static str)
        ensures
            r@ == self.spec_name(),
    {
        match self {
            SessionNotFoundAction::Continue => "continue",
            SessionNotFoundAction::Fail => "fail",
            SessionNotFoundAction::End => "end",
        }
    }
}

/// The parameters of a live source: the session URL as the single input,
/// then the action when the session is not found, if given.
pub open spec fn spec_lttng_live_params(
    url: Seq<char>,
    session_not_found_action: Option<SessionNotFoundAction>,
) -> Seq<(Seq<char>, ParamValueView)> {
    let p = seq![("inputs"@, ParamValueView::StringArray(seq![url]))];
    match session_not_found_action {
        None => p,
        Some(a) => p.push(("session-not-found-action"@, ParamValueView::String(a.spec_name()))),
    }
}

/// Initialization parameters of the live-session source.
pub struct CtfPluginSourceLttnLiveInitParams {
    params: Value,
}

impl CtfPluginSourceLttnLiveInitParams {
    pub closed spec fn spec_params(&self) -> Seq<(Seq<char>, ParamValueView)> {
        self.params@
    }

    /// Parameters reading the session at `url`.
    pub fn new(url: &str, session_not_found_action: Option<SessionNotFoundAction>) -> (r: BtResult<
        Self,
    >)
        ensures
            r is Ok && r->Ok_0.spec_params() == spec_lttng_live_params(
                url@,
                session_not_found_action,
            ),
    {
        let mut params = Value::new_map();
        let mut inputs: Vec<String> = Vec::new();
        inputs.push(url.to_owned());
        let ghost iv = inputs@;
        params.insert_entry("inputs", ParamValue::StringArray(inputs));
        assert(crate::value::string_views(iv) =~= seq![url@]);
        if let Some(a) = session_not_found_action {
            params.insert_entry("session-not-found-action", ParamValue::String(a.as_str().to_owned()));
        }
        assert(params@ =~= spec_lttng_live_params(url@, session_not_found_action));
        Ok(CtfPluginSourceLttnLiveInitParams { params })
    }

    pub fn params(&self) -> (r: &Value)
        ensures
            r@ == self.spec_params(),
    {
        &self.params
    }

    pub fn inputs_key() -> (r: &'static str)
        ensures
            r@ == "inputs"@,
    {
        "inputs"
    }

    pub fn session_not_found_action_key() -> (r: &'static str)
        ensures
            r@ == "session-not-found-action"@,
    {
        "session-not-found-action"
    }
}

impl FromStr for SessionNotFoundAction {
    type Err = String;

    fn from_str(s: &str) -> Result<Self, Self::Err> {
        match Self::parse(s) {
            Some(a) => Ok(a),
            None => Err(rejection_message("", s, " is not a valid action")),
        }
    }
}

} // verus!
