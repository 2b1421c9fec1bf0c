//! The capability probe's decision logic: given the outcome of invoking the
//! external tool with a version-query argument (the invocation itself is the
//! caller's work), produce the version string or a diagnostic.

use vstd::prelude::*;

verus! {

/// What happened when the caller invoked the external tool with a
/// version-query argument.
pub enum ProbeOutcome {
    /// The tool binary could not be spawned: not found or not executable.
    NotFound,
    /// The tool ran; `exit_ok` is whether it exited zero, `stdout` its
    /// captured standard-output text.
    Ran { exit_ok: bool, stdout: String },
}

/// The first line of a text: everything before the first newline.
pub open spec fn spec_first_line(s: Seq<char>) -> Seq<char>
    decreases s.len(),
{
    if s.len() == 0 {
        Seq::empty()
    } else if s.first() == '\n' {
        Seq::empty()
    } else {
        seq![s.first()] + spec_first_line(s.drop_first())
    }
}

/// Diagnostic for a tool binary that could not be spawned.
pub open spec fn spec_missing_tool_diagnostic() -> Seq<char> {
    "conversion tool not found: install it and make it reachable"@
}

/// Diagnostic for a tool that ran but exited non-zero.
pub open spec fn spec_failing_tool_diagnostic() -> Seq<char> {
    "conversion tool was found but returned an error"@
}

/// Fallback version string when the tool printed nothing.
pub open spec fn spec_fallback_version() -> Seq<char> {
    "tool found"@
}

/// What the probe reports for a given invocation outcome: the first line of
/// the tool's output (or a fallback when it printed nothing) on a zero exit,
/// a diagnostic otherwise.
pub open spec fn spec_probe_report(o: ProbeOutcome) -> Result<Seq<char>, Seq<char>> {
    match o {
        ProbeOutcome::NotFound => Err(spec_missing_tool_diagnostic()),
        ProbeOutcome::Ran { exit_ok, stdout } => if !exit_ok {
            Err(spec_failing_tool_diagnostic())
        } else if stdout@.len() == 0 {
            Ok(spec_fallback_version())
        } else {
            Ok(spec_first_line(stdout@))
        },
    }
}

proof fn lemma_first_line_take(s: Seq<char>, e: int)
    requires
        0 <= e <= s.len(),
        forall|k: int| 0 <= k < e ==> s[k] != '\n',
        e < s.len() ==> s[e] == '\n',
    ensures
        spec_first_line(s) == s.take(e),
    decreases s.len(),
{
    if e == 0 {
        assert(s.take(0) =~= Seq::empty());
    } else {
        let t = s.drop_first();
        lemma_first_line_take(t, e - 1);
        assert(spec_first_line(s) == seq![s.first()] + spec_first_line(t));
        assert(s.take(e) =~= seq![s.first()] + t.take(e - 1));
    }
}

/// Interprets the outcome of the version-query invocation: the version
/// string on success, a diagnostic on failure.
pub fn probe_report(outcome: ProbeOutcome) -> (r: Result<String, String>)
    ensures
        match r {
            Ok(v) => spec_probe_report(outcome) == Ok::<_, Seq<char>>(v@),
            Err(d) => spec_probe_report(outcome) == Err::<Seq<char>, _>(d@),
        },
{
    match outcome {
        ProbeOutcome::NotFound => Err(String::from_str(
            "conversion tool not found: install it and make it reachable",
        )),
        ProbeOutcome::Ran { exit_ok, stdout } => {
            if !exit_ok {
                Err(String::from_str("conversion tool was found but returned an error"))
            } else {
                let n = stdout.as_str().unicode_len();
                if n == 0 {
                    Ok(String::from_str("tool found"))
                } else {
                    let ghost s = stdout@;
                    let mut e: usize = 0;
                    while e < n && stdout.as_str().get_char(e) != '\n'
                        invariant
                            n == s.len(),
                            stdout@ == s,
                            e <= n,
                            forall|k: int| 0 <= k < e ==> s[k] != '\n',
                        decreases n - e,
                    {
                        e += 1;
                    }
                    let line = stdout.as_str().substring_char(0, e);
                    proof {
                        lemma_first_line_take(s, e as int);
                    }
                    Ok(String::from_str(line))
                }
            }
        },
    }
}

} // verus!
