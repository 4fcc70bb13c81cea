//! Language plugins: the manifests loaded at startup, the registry that maps
//! a uuid to its language, and the decisions of the compile phase.
//!
//! Compiling and executing are two successive sandboxed runs; the registry
//! plans each run (argument vector plus limits) and judges the compile run's
//! corpse, while the caller drives the container that performs it.

use vstd::prelude::*;

use crate::limits::{ExitReason, Limits};
use crate::process::Corpse;

verus! {

/// The status codes a judged case can end with.
#[derive(Clone, Copy, PartialEq, Eq, Structural, Debug)]
pub enum JudgeCode {
    Ac,
    Wa,
    Tle,
    Mle,
    Ole,
    Re,
    Ce,
    SystemError,
}

/// What `uuid::Uuid::parse_str` makes of a string: the uuid's 128-bit value,
/// or nothing when the string is not a uuid.
pub uninterp spec fn parsed_uuid(s: Seq<char>) -> Option<u128>;

/// Relies on `uuid::Uuid::parse_str`: it parses hexadecimal digits with
/// optional hyphens (the crate's simple, hyphenated, urn and GUID forms) and
/// depends on the characters alone; `as_u128` reads the parsed value back as
/// one 128-bit integer.
#[verifier::external_body]
pub(crate) fn parse_uuid(s: &str) -> (r: Option<u128>)
    ensures
        r == parsed_uuid(s@),
{
    match uuid::Uuid::parse_str(s) {
        Ok(u) => Some(u.as_u128()),
        Err(_) => None,
    }
}

/// One line of compiler diagnostics, kept for streaming to the caller.
#[derive(Clone, PartialEq, Eq, Debug)]
pub struct CompileLog {
    pub level: u32,
    pub message: String,
}

/// A malformed request, found before any container is created.
#[derive(Clone, Copy, PartialEq, Eq, Structural, Debug)]
pub enum RequestError {
    /// No language with this uuid is loaded on this judger.
    LangNotFound(u128),
}

/// Errors of the language layer, as the judge endpoints see them.
pub enum LangError {
    /// A fault of the judger itself; the detail stays in the log.
    Internal(String),
    BadRequest(RequestError),
    /// The run already has a presentable status: report it and stop.
    Report(JudgeCode),
}

/// A language plugin's manifest, loaded once at startup.
pub struct LanguageManifest {
    pub uuid: u128,
    pub name: String,
    /// Argument vector of the compile run.
    pub compile_argv: Vec<String>,
    /// Argument vector of the execute run.
    pub run_argv: Vec<String>,
    /// Per-test limits a request falls back to.
    pub default_limits: Limits,
    /// The compile run gets the default limits scaled by this factor.
    pub compile_limit_multiplier: u64,
    pub source_filename: String,
    pub binary_filename: String,
}

/// `a * m`, clamped to the largest representable value.
pub open spec fn spec_sat_mul(a: u64, m: u64) -> u64 {
    if a * m > u64::MAX {
        u64::MAX
    } else {
        (a * m) as u64
    }
}

fn sat_mul(a: u64, m: u64) -> (r: u64)
    ensures
        r == spec_sat_mul(a, m),
{
    proof {
        assert((a as int) * (m as int) <= (u64::MAX as int) * (u64::MAX as int)) by (nonlinear_arith)
            requires
                a <= u64::MAX,
                m <= u64::MAX,
        ;
        assert((u64::MAX as int) * (u64::MAX as int) <= u128::MAX as int);
    }
    let wide: u128 = (a as u128) * (m as u128);
    if wide > u64::MAX as u128 {
        u64::MAX
    } else {
        wide as u64
    }
}

impl LanguageManifest {
    /// The limits of this language's compile run: every ceiling scaled by
    /// the manifest's multiplier, saturating at the largest value.
    pub open spec fn spec_compile_limits(self) -> Limits {
        Limits {
            wall_ms: spec_sat_mul(self.default_limits.wall_ms, self.compile_limit_multiplier),
            cpu_us: spec_sat_mul(self.default_limits.cpu_us, self.compile_limit_multiplier),
            memory_bytes: spec_sat_mul(
                self.default_limits.memory_bytes,
                self.compile_limit_multiplier,
            ),
            output_bytes: spec_sat_mul(
                self.default_limits.output_bytes,
                self.compile_limit_multiplier,
            ),
        }
    }

    pub fn compile_limits(&self) -> (r: Limits)
        ensures
            r == self.spec_compile_limits(),
    {
        Limits {
            wall_ms: sat_mul(self.default_limits.wall_ms, self.compile_limit_multiplier),
            cpu_us: sat_mul(self.default_limits.cpu_us, self.compile_limit_multiplier),
            memory_bytes: sat_mul(self.default_limits.memory_bytes, self.compile_limit_multiplier),
            output_bytes: sat_mul(self.default_limits.output_bytes, self.compile_limit_multiplier),
        }
    }
}

/// A language as the info endpoint lists it.
#[derive(Clone, PartialEq, Eq, Debug)]
pub struct LangInfo {
    pub uuid: u128,
    pub name: String,
}

/// The registry of loaded languages, immutable after startup.
pub struct ArtifactFactory {
    langs: Vec<LanguageManifest>,
}

impl ArtifactFactory {
    pub closed spec fn langs_spec(self) -> Seq<LanguageManifest> {
        self.langs@
    }

    /// Loaded uuids are unique: a lookup has one answer.
    pub open spec fn wf(self) -> bool {
        forall|i: int, j: int|
            0 <= i < j < self.langs_spec().len() ==> self.langs_spec()[i].uuid
                != self.langs_spec()[j].uuid
    }

    /// Whether some loaded language carries `uuid`.
    pub open spec fn has_lang(self, uuid: u128) -> bool {
        exists|i: int| 0 <= i < self.langs_spec().len() && self.langs_spec()[i].uuid == uuid
    }

    pub fn new() -> (f: Self)
        ensures
            f.wf(),
            f.langs_spec() == Seq::<LanguageManifest>::empty(),
    {
        ArtifactFactory { langs: Vec::new() }
    }

    /// Register one loaded manifest. A manifest whose uuid is already taken
    /// is rejected, and exactly then.
    pub fn add_language(&mut self, m: LanguageManifest) -> (r: Result<(), RequestError>)
        requires
            old(self).wf(),
        ensures
            final(self).wf(),
            match r {
                Ok(()) => {
                    &&& !old(self).has_lang(m.uuid)
                    &&& final(self).langs_spec() == old(self).langs_spec().push(m)
                },
                Err(e) => {
                    &&& e == RequestError::LangNotFound(m.uuid)
                    &&& old(self).has_lang(m.uuid)
                    &&& final(self).langs_spec() == old(self).langs_spec()
                },
            },
    {
        let mut i: usize = 0;
        while i < self.langs.len()
            invariant
                0 <= i <= self.langs@.len(),
                forall|j: int| 0 <= j < i ==> self.langs@[j].uuid != m.uuid,
                self.langs@ == old(self).langs@,
                old(self).wf(),
            decreases self.langs@.len() - i,
        {
            if self.langs[i].uuid == m.uuid {
                proof {
                    assert(old(self).langs_spec()[i as int].uuid == m.uuid);
                }
                return Err(RequestError::LangNotFound(m.uuid));
            }
            i = i + 1;
        }
        let ghost before = self.langs@;
        self.langs.push(m);
        proof {
            assert forall|p: int, q: int|
                0 <= p < q < self.langs@.len() implies self.langs@[p].uuid
                != self.langs@[q].uuid by {
                if q == self.langs@.len() - 1 {
                    assert(self.langs@[p] == before[p]);
                    assert(self.langs@[q] == m);
                } else {
                    assert(self.langs@[p] == before[p]);
                    assert(self.langs@[q] == before[q]);
                    assert(before == old(self).langs_spec());
                    assert(old(self).langs_spec()[p].uuid != old(self).langs_spec()[q].uuid);
                }
            }
            if old(self).has_lang(m.uuid) {
                let w = choose|i: int|
                    0 <= i < before.len() && #[trigger] before[i].uuid == m.uuid;
                assert(false);
            }
        }
        Ok(())
    }

    /// The languages this judger offers.
    pub fn list_module(&self) -> (r: Vec<LangInfo>)
        ensures
            r@.len() == self.langs_spec().len(),
            forall|i: int|
                0 <= i < r@.len() ==> r@[i].uuid == self.langs_spec()[i].uuid && r@[i].name@
                    == self.langs_spec()[i].name@,
    {
        let mut r: Vec<LangInfo> = Vec::new();
        let mut i: usize = 0;
        while i < self.langs.len()
            invariant
                0 <= i <= self.langs@.len(),
                r@.len() == i,
                forall|j: int|
                    0 <= j < i ==> r@[j].uuid == self.langs@[j].uuid && r@[j].name@
                        == self.langs@[j].name@,
            decreases self.langs@.len() - i,
        {
            let m = &self.langs[i];
            r.push(LangInfo { uuid: m.uuid, name: m.name.clone() });
            i = i + 1;
        }
        r
    }

    /// Look a language up by uuid. Succeeds exactly when it is loaded.
    pub fn find(&self, uuid: u128) -> (r: Result<&LanguageManifest, RequestError>)
        ensures
            match r {
                Ok(m) => {
                    &&& self.has_lang(uuid)
                    &&& m.uuid == uuid
                    &&& exists|i: int|
                        0 <= i < self.langs_spec().len() && self.langs_spec()[i] == *m
                },
                Err(e) => {
                    &&& !self.has_lang(uuid)
                    &&& e == RequestError::LangNotFound(uuid)
                },
            },
    {
        let mut i: usize = 0;
        while i < self.langs.len()
            invariant
                0 <= i <= self.langs@.len(),
                forall|j: int| 0 <= j < i ==> self.langs@[j].uuid != uuid,
            decreases self.langs@.len() - i,
        {
            if self.langs[i].uuid == uuid {
                let m = &self.langs[i];
                proof {
                    assert(self.langs_spec()[i as int] == *m);
                }
                return Ok(m);
            }
            i = i + 1;
        }
        Err(RequestError::LangNotFound(uuid))
    }
}

/// The sealed product of a successful compile run: the language it belongs
/// to and the diagnostics collected while compiling. The compiled layer
/// itself lives in the container's upper filesystem, which the caller seals.
pub struct CompiledArtifact {
    pub lang_uuid: u128,
    pub logs: Vec<CompileLog>,
}

impl CompiledArtifact {
    /// Drain the compile diagnostics for streaming.
    pub fn take_logs(&mut self) -> (r: Vec<CompileLog>)
        ensures
            r@ == old(self).logs@,
            final(self).logs@ == Seq::<CompileLog>::empty(),
            final(self).lang_uuid == old(self).lang_uuid,
    {
        let mut out: Vec<CompileLog> = Vec::new();
        core::mem::swap(&mut out, &mut self.logs);
        out
    }
}

/// Whether a compile run's corpse seals an artifact.
///
/// Only a clean zero exit does; any other end — a non-zero exit, a signal or
/// a tripped limit — is reported as a compile error carrying the
/// diagnostics, never as a fault of the judger.
pub open spec fn spec_compile_accepted(exit: ExitReason) -> bool {
    exit == ExitReason::Exited(0i32)
}

/// Judge a compile run's corpse: seal the artifact or report `Ce`.
pub fn conclude_compile(lang_uuid: u128, corpse: &Corpse, logs: Vec<CompileLog>) -> (r: Result<
    CompiledArtifact,
    LangError,
>)
    ensures
        match r {
            Ok(a) => {
                &&& spec_compile_accepted(corpse.exit)
                &&& a.lang_uuid == lang_uuid
                &&& a.logs@ == logs@
            },
            Err(e) => {
                &&& !spec_compile_accepted(corpse.exit)
                &&& e matches LangError::Report(c) && c == JudgeCode::Ce
            },
        },
{
    let accepted = match corpse.exit {
        ExitReason::Exited(code) => code == 0,
        _ => false,
    };
    if accepted {
        Ok(CompiledArtifact { lang_uuid, logs })
    } else {
        Err(LangError::Report(JudgeCode::Ce))
    }
}

} // verus!
