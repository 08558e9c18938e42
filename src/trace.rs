//! Traces and the properties captured from them.

use vstd::prelude::*;
use crate::env::{env_insert, env_sorted, lemma_env_insert_sorted, Env, EnvValue, EnvValueView};
use crate::error::{BtResult, Error};
use crate::util::{opt_bytes, opt_owned_cstr, opt_text, opt_text_eq, opt_uuid, spec_opt_text, spec_opt_uuid};

verus! {

/// The value of a trace environment entry as the engine holds it.
#[derive(Clone, Debug)]
pub enum RawEnvValue {
    SignedInteger(i64),
    /// A string value, as the engine's raw bytes.
    String(Option<Vec<u8>>),
    /// A value of any other kind, with the engine's type code.
    Unsupported(u32),
}

/// A trace environment entry as the engine holds it.
#[derive(Clone, Debug)]
pub struct EnvEntry {
    pub name: Option<Vec<u8>>,
    pub value: RawEnvValue,
}

/// A trace as the engine describes it: strings and the UUID are raw bytes,
/// environment entries come in the engine's order.
#[derive(Clone, Debug)]
pub struct Trace {
    pub name: Option<Vec<u8>>,
    pub uuid: Option<Vec<u8>>,
    pub environment: Vec<EnvEntry>,
}

/// What is captured of a trace.
#[derive(Clone, Eq, Hash, Debug)]
pub struct TraceProperties {
    pub name: Option<String>,
    /// The trace's UUID as a 128-bit number, most significant byte first.
    pub uuid: Option<u128>,
    pub env: Option<Env>,
}

pub ghost struct TracePropertiesView {
    pub name: Option<Seq<char>>,
    pub uuid: Option<u128>,
    pub env: Option<Seq<(Seq<char>, EnvValueView)>>,
}

impl View for TraceProperties {
    type V = TracePropertiesView;

    open spec fn view(&self) -> TracePropertiesView {
        TracePropertiesView {
            name: opt_text(self.name),
            uuid: self.uuid,
            env: match self.env {
                None => None,
                Some(e) => Some(e@),
            },
        }
    }
}

impl PartialEq for TraceProperties {
    fn eq(&self, o: &TraceProperties) -> (r: bool) {
        let same_env = match (&self.env, &o.env) {
            (None, None) => true,
            (Some(a), Some(b)) => a.eq(b),
            _ => false,
        };
        opt_text_eq(&self.name, &o.name) && self.uuid == o.uuid && same_env
    }
}

impl vstd::std_specs::cmp::PartialEqSpecImpl for TraceProperties {
    open spec fn obeys_eq_spec() -> bool {
        true
    }

    open spec fn eq_spec(&self, o: &TraceProperties) -> bool {
        self@ == o@
    }
}

impl Default for TraceProperties {
    fn default() -> (r: TraceProperties)
        ensures
            r@ == (TracePropertiesView { name: None, uuid: None, env: None }),
    {
        TraceProperties { name: None, uuid: None, env: None }
    }
}

/// The environment after one more engine entry: its key is set to its value
/// (the last write wins); entries without a name, and string entries without
/// text, are left out; a value of another kind is an error.
pub open spec fn env_step(acc: Seq<(Seq<char>, EnvValueView)>, e: EnvEntry) -> Result<
    Seq<(Seq<char>, EnvValueView)>,
    Error,
> {
    match spec_opt_text(opt_bytes(e.name)) {
        Err(err) => Err(err),
        Ok(None) => Ok(acc),
        Ok(Some(k)) => match e.value {
            RawEnvValue::SignedInteger(v) => Ok(env_insert(acc, k, EnvValueView::Integer(v))),
            RawEnvValue::String(b) => match spec_opt_text(opt_bytes(b)) {
                Err(err) => Err(err),
                Ok(None) => Ok(acc),
                Ok(Some(t)) => Ok(env_insert(acc, k, EnvValueView::String(t))),
            },
            RawEnvValue::Unsupported(_) => Err(Error::EnvValue),
        },
    }
}

/// The environment built from the first `n` engine entries, or the first
/// error among them.
pub open spec fn env_prefix(entries: Seq<EnvEntry>, n: nat) -> Result<
    Seq<(Seq<char>, EnvValueView)>,
    Error,
>
    decreases n,
{
    if n == 0 {
        Ok(Seq::empty())
    } else {
        match env_prefix(entries, (n - 1) as nat) {
            Err(e) => Err(e),
            Ok(acc) => env_step(acc, entries[n - 1]),
        }
    }
}

/// Whatever the engine lists, a captured environment holds each key once, in
/// ascending order.
pub proof fn lemma_env_prefix_sorted(entries: Seq<EnvEntry>, n: nat)
    ensures
        env_prefix(entries, n) is Ok ==> env_sorted(env_prefix(entries, n)->Ok_0),
    decreases n,
{
    if n > 0 {
        lemma_env_prefix_sorted(entries, (n - 1) as nat);
        if let Ok(acc) = env_prefix(entries, (n - 1) as nat) {
            let e = entries[n - 1];
            if let Ok(Some(k)) = spec_opt_text(opt_bytes(e.name)) {
                match e.value {
                    RawEnvValue::SignedInteger(v) => {
                        lemma_env_insert_sorted(acc, k, EnvValueView::Integer(v));
                    },
                    RawEnvValue::String(b) => {
                        if let Ok(Some(t)) = spec_opt_text(opt_bytes(b)) {
                            lemma_env_insert_sorted(acc, k, EnvValueView::String(t));
                        }
                    },
                    RawEnvValue::Unsupported(_) => {},
                }
            }
        }
    }
}

proof fn lemma_env_prefix_err(entries: Seq<EnvEntry>, k: nat, n: nat, e: Error)
    requires
        k <= n,
        env_prefix(entries, k) == Err::<Seq<(Seq<char>, EnvValueView)>, Error>(e),
    ensures
        env_prefix(entries, n) == Err::<Seq<(Seq<char>, EnvValueView)>, Error>(e),
    decreases n,
{
    if k < n {
        lemma_env_prefix_err(entries, k, (n - 1) as nat, e);
    }
}

impl Trace {
    /// The properties of a trace, or the first error met reading its name,
    /// its UUID and then its environment entries in order. A trace with no
    /// environment entry has no environment.
    pub open spec fn spec_properties(self) -> Result<TracePropertiesView, Error> {
        match spec_opt_text(opt_bytes(self.name)) {
            Err(e) => Err(e),
            Ok(name) => match spec_opt_uuid(opt_bytes(self.uuid)) {
                Err(e) => Err(e),
                Ok(uuid) => {
                    if self.environment@.len() == 0 {
                        Ok(TracePropertiesView { name, uuid, env: None })
                    } else {
                        match env_prefix(self.environment@, self.environment@.len()) {
                            Err(e) => Err(e),
                            Ok(env) => Ok(TracePropertiesView { name, uuid, env: Some(env) }),
                        }
                    }
                },
            },
        }
    }

    /// Captures the properties of this trace. Its environment, if any, holds
    /// each key once, in ascending order.
    pub fn properties(&self) -> (r: BtResult<TraceProperties>)
        ensures
            r is Ok && r->Ok_0.env is Some ==> env_sorted(r->Ok_0.env->Some_0@),
            match self.spec_properties() {
                Ok(v) => r.is_ok() && r.unwrap()@ == v,
                Err(e) => r == Err::<TraceProperties, Error>(e),
            },
    {
        let name = match opt_owned_cstr(&self.name) {
            Ok(n) => n,
            Err(e) => return Err(e),
        };
        let uuid = match opt_uuid(&self.uuid) {
            Ok(u) => u,
            Err(e) => return Err(e),
        };
        if self.environment.len() == 0 {
            return Ok(TraceProperties { name, uuid, env: None });
        }
        let n = self.environment.len();
        proof {
            lemma_env_prefix_sorted(self.environment@, n as nat);
        }
        let mut entries = Env::new();
        let mut i: usize = 0;
        while i < n
            invariant
                n == self.environment@.len(),
                i <= n,
                spec_opt_text(opt_bytes(self.name)) == Ok::<Option<Seq<char>>, Error>(
                    opt_text(name),
                ),
                spec_opt_uuid(opt_bytes(self.uuid)) == Ok::<Option<u128>, Error>(uuid),
                env_prefix(self.environment@, i as nat) == Ok::<
                    Seq<(Seq<char>, EnvValueView)>,
                    Error,
                >(entries@),
            decreases n - i,
        {
            let e = &self.environment[i];
            let acc = Ghost(entries@);
            let step: BtResult<()> = match opt_owned_cstr(&e.name) {
                Err(err) => Err(err),
                Ok(None) => Ok(()),
                Ok(Some(key)) => match &e.value {
                    RawEnvValue::SignedInteger(v) => {
                        entries.insert(key, EnvValue::Integer(*v));
                        Ok(())
                    },
                    RawEnvValue::String(b) => match opt_owned_cstr(b) {
                        Err(err) => Err(err),
                        Ok(None) => Ok(()),
                        Ok(Some(t)) => {
                            entries.insert(key, EnvValue::String(t));
                            Ok(())
                        },
                    },
                    RawEnvValue::Unsupported(_) => Err(Error::EnvValue),
                },
            };
            proof {
                let ev = env_step(acc@, self.environment@[i as int]);
                if step.is_err() {
                    assert(ev == Err::<Seq<(Seq<char>, EnvValueView)>, Error>(step->Err_0));
                } else {
                    assert(ev == Ok::<Seq<(Seq<char>, EnvValueView)>, Error>(
                        entries@,
                    ));
                }
            }
            match step {
                Err(err) => {
                    proof {
                        assert(env_prefix(self.environment@, (i + 1) as nat) == Err::<
                            Seq<(Seq<char>, EnvValueView)>,
                            Error,
                        >(err));
                        lemma_env_prefix_err(self.environment@, (i + 1) as nat, n as nat, err);
                    }
                    return Err(err);
                },
                Ok(()) => {},
            }
            i = i + 1;
        }
        Ok(TraceProperties { name, uuid, env: Some(entries) })
    }
}

} // verus!
