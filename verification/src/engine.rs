//! The exact command handed to the external document-processing engine.
//!
//! The argument list has a fixed shape: device selector, compatibility
//! level, the three batch flags, the output-file flag carrying the resolved
//! destination, the quality-settings flag carrying the preset token, and
//! the source path as the one positional. Nothing else branches on the
//! plan's content.

use vstd::prelude::*;
use vstd::string::StringExecFns;
use crate::cli::Plan;
use crate::cli::PlanView;
use crate::strings::spec_starts_with;

verus! {

/// The executable name of the external engine, looked up on the system's
/// search path by whoever launches it.
pub open spec fn spec_engine_program() -> Seq<char> {
    "gs"@
}

/// Render the engine's executable name.
pub fn engine_program() -> (r: String)
    ensures
        r@ == spec_engine_program(),
{
    String::from_str("gs")
}

/// The engine's argument list for a plan, in the exact order the engine is
/// invoked with.
pub open spec fn spec_engine_args(p: PlanView) -> Seq<Seq<char>> {
    seq![
        "-SDEVICE=pdfwrite"@,
        "-dCompatibilityLevel=1.4"@,
        "-dNOPAUSE"@,
        "-dQUIET"@,
        "-dBATCH"@,
        "-sOutputFile="@ + p.destination,
        "-dPDFSETTINGS=/"@ + p.mode.spec_token(),
        p.source,
    ]
}

/// Build the engine's argument list from a plan. The arguments are handed
/// to the launcher as a literal list, never joined into a shell string.
pub fn engine_args(plan: &Plan) -> (r: Vec<String>)
    ensures
        r.deep_view() == spec_engine_args(plan@),
{
    let mut v: Vec<String> = Vec::new();
    v.push(String::from_str("-SDEVICE=pdfwrite"));
    v.push(String::from_str("-dCompatibilityLevel=1.4"));
    v.push(String::from_str("-dNOPAUSE"));
    v.push(String::from_str("-dQUIET"));
    v.push(String::from_str("-dBATCH"));
    v.push(String::from_str("-sOutputFile=").concat(plan.destination.as_str()));
    v.push(String::from_str("-dPDFSETTINGS=/").concat(plan.mode.token().as_str()));
    v.push(plan.source.clone());
    proof {
        assert(v.deep_view() =~= spec_engine_args(plan@));
    }
    v
}

/// A sequence that differs from `p` within `p`'s length does not start
/// with `p`.
proof fn lemma_not_prefix_at(s: Seq<char>, p: Seq<char>, k: int)
    requires
        0 <= k < p.len(),
        k < s.len(),
        s[k] != p[k],
    ensures
        !spec_starts_with(s, p),
{
    if spec_starts_with(s, p) {
        assert(s.take(p.len() as int)[k] == p[k]);
    }
}

/// The quality-settings flag and the output-file flag each stand in the
/// built argument list exactly once, carrying the preset's lower-case token
/// and the resolved destination. The two fixed positions are the only
/// arguments with those flag prefixes — provided the source path itself
/// does not begin with either flag, in which case the bare positional would
/// mimic one.
pub proof fn lemma_engine_args_flags_once(p: PlanView)
    requires
        !spec_starts_with(p.source, "-dPDFSETTINGS="@),
        !spec_starts_with(p.source, "-sOutputFile="@),
    ensures
        spec_engine_args(p).len() == 8,
        spec_engine_args(p)[6] == "-dPDFSETTINGS=/"@ + p.mode.spec_token(),
        spec_engine_args(p)[5] == "-sOutputFile="@ + p.destination,
        forall|i: int|
            0 <= i < spec_engine_args(p).len() && i != 6 ==> !spec_starts_with(
                spec_engine_args(p)[i],
                "-dPDFSETTINGS="@,
            ),
        forall|i: int|
            0 <= i < spec_engine_args(p).len() && i != 5 ==> !spec_starts_with(
                spec_engine_args(p)[i],
                "-sOutputFile="@,
            ),
{
    reveal_strlit("-SDEVICE=pdfwrite");
    reveal_strlit("-dCompatibilityLevel=1.4");
    reveal_strlit("-dNOPAUSE");
    reveal_strlit("-dQUIET");
    reveal_strlit("-dBATCH");
    reveal_strlit("-sOutputFile=");
    reveal_strlit("-dPDFSETTINGS=");
    reveal_strlit("-dPDFSETTINGS=/");
    let q = "-dPDFSETTINGS="@;
    let o = "-sOutputFile="@;
    assert(q.len() == 14 && o.len() == 13);
    let args = spec_engine_args(p);
    // Entries 0 and 1 differ from both flags early; 2, 3, 4 are too short
    // for either flag; 5 and 6 carry one flag each and differ from the
    // other at the device letter; 7 is covered by the hypothesis.
    assert("-SDEVICE=pdfwrite"@[1] == 'S' && q[1] == 'd' && o[1] == 's');
    lemma_not_prefix_at(args[0], q, 1);
    lemma_not_prefix_at(args[0], o, 1);
    assert("-dCompatibilityLevel=1.4"@[2] == 'C' && q[2] == 'P' && o[1] == 's');
    lemma_not_prefix_at(args[1], q, 2);
    lemma_not_prefix_at(args[1], o, 1);
    assert("-dNOPAUSE"@.len() == 9 && "-dQUIET"@.len() == 7 && "-dBATCH"@.len() == 7);
    assert((args[5])[1] == 's' && (args[6])[1] == 'd');
    lemma_not_prefix_at(args[5], q, 1);
    lemma_not_prefix_at(args[6], o, 1);
}

} // verus!
