//! Human-facing rendering of statuses, links and error chains.

use vstd::prelude::*;

use crate::types::{BoundaryLayerTreatment, SimulationStatus};

verus! {

/// English label of a simulation status.
pub fn human_simulation_status(v: SimulationStatus) -> (r: &'static str)
    ensures
        r@ == match v {
            SimulationStatus::Progress => "in progress"@,
            SimulationStatus::Success => "succeeded"@,
            SimulationStatus::Expired => "expired"@,
            SimulationStatus::Draft => "draft"@,
        },
{
    match v {
        SimulationStatus::Progress => "in progress",
        SimulationStatus::Success => "succeeded",
        SimulationStatus::Expired => "expired",
        SimulationStatus::Draft => "draft",
    }
}

/// English label of a boundary-layer treatment.
pub fn human_boundary_layer_treatment(v: BoundaryLayerTreatment) -> (r: &'static str)
    ensures
        r@ == match v {
            BoundaryLayerTreatment::WallFunctions => "wall functions"@,
            BoundaryLayerTreatment::ResolvedBoundaryLayer => "resolved boundary layer"@,
        },
{
    match v {
        BoundaryLayerTreatment::WallFunctions => "wall functions",
        BoundaryLayerTreatment::ResolvedBoundaryLayer => "resolved boundary layer",
    }
}

/// "yes" or "no".
pub fn bool_to_human(b: bool) -> (r: &'static str)
    ensures
        r@ == if b {
            "yes"@
        } else {
            "no"@
        },
{
    if b {
        "yes"
    } else {
        "no"
    }
}

/// The terminal hyperlink wrapping `text` so that it opens `url`.
pub open spec fn link_with_text_spec(text: Seq<char>, url: Seq<char>) -> Seq<char> {
    "\u{1b}]8;;"@ + url + "\u{1b}\\"@ + text + "\u{1b}]8;;\u{1b}\\"@
}

/// Renders `text` as a terminal hyperlink to `url`.
pub fn link_with_text(text: &str, url: &str) -> (r: String)
    ensures
        r@ == link_with_text_spec(text@, url@),
{
    let mut r: String = String::from_str("\u{1b}]8;;");
    r.append(url);
    r.append("\u{1b}\\");
    r.append(text);
    r.append("\u{1b}]8;;\u{1b}\\");
    r
}

/// Renders a terminal hyperlink to `url` with a fixed label.
pub fn link(url: &str) -> (r: String)
    ensures
        r@ == link_with_text_spec("[Open in Browser \u{2197} ]"@, url@),
{
    link_with_text("[Open in Browser \u{2197} ]", url)
}

/// The decimal digit character for a value below ten.
pub open spec fn digit_char(d: int) -> char {
    if d == 0 {
        '0'
    } else if d == 1 {
        '1'
    } else if d == 2 {
        '2'
    } else if d == 3 {
        '3'
    } else if d == 4 {
        '4'
    } else if d == 5 {
        '5'
    } else if d == 6 {
        '6'
    } else if d == 7 {
        '7'
    } else if d == 8 {
        '8'
    } else {
        '9'
    }
}

/// Decimal rendering of a non-negative integer.
pub open spec fn spec_digits(n: int) -> Seq<char>
    decreases n,
{
    if n < 10 {
        seq![digit_char(n)]
    } else {
        spec_digits(n / 10) + seq![digit_char(n % 10)]
    }
}

/// `k` spaces.
pub open spec fn spec_spaces(k: int) -> Seq<char>
    decreases k,
{
    if k <= 0 {
        Seq::empty()
    } else {
        spec_spaces(k - 1) + seq![' ']
    }
}

/// Decimal rendering of `n`, right-aligned to at least `width` characters.
pub open spec fn spec_padded_number(n: int, width: int) -> Seq<char> {
    let digits = spec_digits(n);
    if digits.len() >= width {
        digits
    } else {
        spec_spaces(width - digits.len()) + digits
    }
}

/// `s` with every line break followed by the continuation prefix `cont`.
pub open spec fn expand_newlines(s: Seq<char>, cont: Seq<char>) -> Seq<char>
    decreases s.len(),
{
    if s.len() == 0 {
        Seq::empty()
    } else {
        expand_newlines(s.drop_last(), cont) + if s.last() == '\n' {
            seq!['\n'] + cont
        } else {
            seq![s.last()]
        }
    }
}

/// One numbered cause of an error report: the one-based index padded to
/// `pad` characters, a dot, and the cause with its continuation lines
/// indented under the text of the first.
pub open spec fn spec_cause(idx: int, pad: int, cause: Seq<char>) -> Seq<char> {
    spec_padded_number(idx + 1, pad) + ". "@ + expand_newlines(cause, spec_spaces(pad) + "   "@)
}

/// The numbered causes joined with line breaks.
pub open spec fn spec_report(chain: Seq<Seq<char>>, pad: int) -> Seq<char>
    decreases chain.len(),
{
    if chain.len() == 0 {
        Seq::empty()
    } else if chain.len() == 1 {
        spec_cause(0, pad, chain[0])
    } else {
        spec_report(chain.drop_last(), pad) + seq!['\n'] + spec_cause(
            chain.len() - 1,
            pad,
            chain.last(),
        )
    }
}

/// A whole error report: every cause of the chain numbered and indented,
/// with the number column widened when the chain has many causes.
pub open spec fn human_err_report_spec(chain: Seq<Seq<char>>) -> Seq<char> {
    spec_report(chain, (chain.len() + 1) as int / 10)
}

/// The decimal digit string for a value below ten.
fn digit_str(d: u64) -> (r: &'static str)
    requires
        d < 10,
    ensures
        r@ == seq![digit_char(d as int)],
{
    let r = match d {
        0 => "0",
        1 => "1",
        2 => "2",
        3 => "3",
        4 => "4",
        5 => "5",
        6 => "6",
        7 => "7",
        8 => "8",
        _ => "9",
    };
    proof {
        reveal_strlit("0");
        reveal_strlit("1");
        reveal_strlit("2");
        reveal_strlit("3");
        reveal_strlit("4");
        reveal_strlit("5");
        reveal_strlit("6");
        reveal_strlit("7");
        reveal_strlit("8");
        reveal_strlit("9");
        assert(r@ =~= seq![digit_char(d as int)]);
    }
    r
}

/// Renders a non-negative integer in decimal.
pub fn format_u64(n: u64) -> (r: String)
    ensures
        r@ == spec_digits(n as int),
    decreases n,
{
    if n < 10 {
        String::from_str(digit_str(n))
    } else {
        let mut s = format_u64(n / 10);
        s.append(digit_str(n % 10));
        s
    }
}

/// A string of `k` spaces.
fn spaces(k: usize) -> (r: String)
    ensures
        r@ == spec_spaces(k as int),
{
    let mut r = String::new();
    for i in 0..k
        invariant
            r@ == spec_spaces(i as int),
    {
        r.append(" ");
        proof {
            reveal_strlit(" ");
            assert(r@ =~= spec_spaces(i as int + 1));
        }
    }
    r
}

/// Renders `n` in decimal, right-aligned to at least `width` characters.
fn padded_number(n: u64, width: usize) -> (r: String)
    ensures
        r@ == spec_padded_number(n as int, width as int),
{
    let digits = format_u64(n);
    let len = digits.as_str().unicode_len();
    if len >= width {
        digits
    } else {
        let mut r = spaces(width - len);
        r.append(digits.as_str());
        r
    }
}

/// Appends `s` to `out`, inserting the continuation prefix `cont` after
/// every line break.
fn append_expanded(out: &mut String, s: &str, cont: &str)
    ensures
        final(out)@ == old(out)@ + expand_newlines(s@, cont@),
{
    let n = s.unicode_len();
    for i in 0..n
        invariant
            n == s@.len(),
            out@ == old(out)@ + expand_newlines(s@.take(i as int), cont@),
    {
        let c = s.get_char(i);
        proof {
            assert(s@.take(i as int + 1).drop_last() =~= s@.take(i as int));
        }
        if c == '\n' {
            out.append("\n");
            out.append(cont);
            proof {
                reveal_strlit("\n");
                assert("\n"@ =~= seq!['\n']);
                assert(out@ =~= old(out)@ + expand_newlines(
                    s@.take(i as int + 1),
                    cont@,
                ));
            }
        } else {
            let piece = s.substring_char(i, i + 1);
            out.append(piece);
            proof {
                assert(piece@ =~= seq![s@[i as int]]);
                assert(out@ =~= old(out)@ + expand_newlines(
                    s@.take(i as int + 1),
                    cont@,
                ));
            }
        }
    }
    proof {
        assert(s@.take(n as int) =~= s@);
    }
}

/// Renders an error's chain of causes as a numbered list, one cause per
/// entry, with the follow-up lines of a multi-line cause indented under
/// its first line.
pub fn human_err_report(chain: &Vec<String>) -> (r: String)
    ensures
        r@ == human_err_report_spec(chain.deep_view()),
{
    let count = chain.len();
    let pad: usize = count / 10 + if count % 10 == 9 {
        1
    } else {
        0
    };
    proof {
        assert(pad == (chain.deep_view().len() + 1) / 10) by (nonlinear_arith)
            requires
                pad == count / 10 + if count % 10 == 9 {
                    1int
                } else {
                    0
                },
                count == chain.deep_view().len(),
                count >= 0,
        ;
    }
    let mut cont = spaces(pad);
    cont.append("   ");
    let mut out = String::new();
    for i in 0..count
        invariant
            count == chain@.len(),
            chain.deep_view().len() == chain@.len(),
            cont@ == spec_spaces(pad as int) + "   "@,
            out@ == spec_report(chain.deep_view().take(i as int), pad as int),
            forall|j: int|
                0 <= j < count ==> chain.deep_view()[j] == #[trigger] chain@[j]@,
    {
        if i > 0 {
            out.append("\n");
            proof {
                reveal_strlit("\n");
                assert("\n"@ =~= seq!['\n']);
            }
        }
        let num = padded_number((i as u64) + 1, pad);
        out.append(num.as_str());
        out.append(". ");
        append_expanded(&mut out, chain[i].as_str(), cont.as_str());
        proof {
            let dv = chain.deep_view();
            assert(dv.take(i as int + 1).drop_last() =~= dv.take(i as int));
            assert(dv.take(i as int + 1).last() == dv[i as int]);
            assert(out@ =~= spec_report(dv.take(i as int + 1), pad as int));
        }
    }
    proof {
        assert(chain.deep_view().take(count as int) =~= chain.deep_view());
    }
    out
}

} // verus!
