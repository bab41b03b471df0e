//! Losslessly quote launch arguments for the target platform's command
//! line.
//!
//! An argument is wrapped in double quotes whenever it holds whitespace or
//! a quote, with backslash runs doubled where the standard command-line
//! parser would otherwise fold them into a following quote. The module
//! also carries a model of that parser, and the proof that parsing a
//! quoted argument reproduces the original exactly.

use vstd::prelude::*;

verus! {

/// Code unit of the double-quote character.
pub const DOUBLEQUOTE: u16 = 0x22;
/// Code unit of the backslash character.
pub const BACKSLASH: u16 = 0x5C;
/// Code unit of the space character.
pub const SPACE: u16 = 0x20;
/// Code unit of the line-feed character.
pub const LINEFEED: u16 = 0xA;
/// Code unit of the horizontal-tab character.
pub const HTAB: u16 = 0x9;
/// Code unit of the vertical-tab character.
pub const VTAB: u16 = 0xB;

/// Whether a code unit forces the argument to be quoted.
pub open spec fn spec_is_escape_char(c: u16) -> bool {
    c == SPACE || c == LINEFEED || c == HTAB || c == VTAB || c == DOUBLEQUOTE
}

/// Whether an argument must be quoted to survive re-tokenization.
pub open spec fn spec_needs_escape(s: Seq<u16>) -> bool {
    exists|i: int| 0 <= i < s.len() && spec_is_escape_char(s[i])
}

/// Length of the backslash run at the front of a wide string.
pub open spec fn spec_backslash_run(s: Seq<u16>) -> int
    decreases s.len(),
{
    if s.len() > 0 && s[0] == BACKSLASH {
        1 + spec_backslash_run(s.skip(1))
    } else {
        0
    }
}

/// A run of backslashes of the given length.
pub open spec fn spec_backslashes(count: int) -> Seq<u16> {
    Seq::new(count as nat, |i: int| BACKSLASH)
}

/// The body placed between the enclosing quotes: each backslash run
/// followed by a quote is doubled and the quote itself escaped, a trailing
/// backslash run is doubled so the closing quote stays a closer, and every
/// other unit is kept as it stands.
pub open spec fn spec_escape_body(s: Seq<u16>) -> Seq<u16>
    decreases s.len(),
    via spec_escape_body_decreases
{
    let run = spec_backslash_run(s);
    if s.len() == 0 {
        Seq::empty()
    } else if run == s.len() {
        spec_backslashes(2 * run)
    } else if s[run] == DOUBLEQUOTE {
        spec_backslashes(2 * run + 1) + seq![DOUBLEQUOTE] + spec_escape_body(s.skip(run + 1))
    } else {
        s.take(run + 1) + spec_escape_body(s.skip(run + 1))
    }
}

/// The quoted form of an argument: unchanged when nothing in it needs
/// quoting, otherwise the escaped body wrapped in double quotes.
pub open spec fn spec_escape(s: Seq<u16>) -> Seq<u16> {
    if spec_needs_escape(s) {
        seq![DOUBLEQUOTE] + spec_escape_body(s) + seq![DOUBLEQUOTE]
    } else {
        s
    }
}

/// The standard command-line parser's reading of the first argument of a
/// command line, starting in the given quote mode: the pair of the parsed
/// argument and the text remaining after the delimiter that ended it.
///
/// A backslash run before a quote collapses to half its length, with an
/// odd run making the quote literal; a quote alone toggles quote mode; a
/// space or horizontal tab outside quotes ends the argument.
pub open spec fn spec_parse_arg(s: Seq<u16>, in_quotes: bool) -> (Seq<u16>, Seq<u16>)
    decreases s.len(),
    via spec_parse_arg_decreases
{
    if s.len() == 0 {
        (Seq::empty(), Seq::empty())
    } else if s[0] == BACKSLASH {
        let run = spec_backslash_run(s);
        if run < s.len() && s[run] == DOUBLEQUOTE {
            if run % 2 == 0 {
                let tail = spec_parse_arg(s.skip(run + 1), !in_quotes);
                (spec_backslashes(run / 2) + tail.0, tail.1)
            } else {
                let tail = spec_parse_arg(s.skip(run + 1), in_quotes);
                (spec_backslashes((run - 1) / 2) + seq![DOUBLEQUOTE] + tail.0, tail.1)
            }
        } else {
            let tail = spec_parse_arg(s.skip(run), in_quotes);
            (spec_backslashes(run) + tail.0, tail.1)
        }
    } else if s[0] == DOUBLEQUOTE {
        spec_parse_arg(s.skip(1), !in_quotes)
    } else if !in_quotes && (s[0] == SPACE || s[0] == HTAB) {
        (Seq::empty(), s.skip(1))
    } else {
        let tail = spec_parse_arg(s.skip(1), in_quotes);
        (seq![s[0]] + tail.0, tail.1)
    }
}

#[via_fn]
proof fn spec_escape_body_decreases(s: Seq<u16>) {
    lemma_backslash_run_bounds(s);
}

#[via_fn]
proof fn spec_parse_arg_decreases(s: Seq<u16>, in_quotes: bool) {
    lemma_backslash_run_bounds(s);
    if s.len() > 0 && s[0] == BACKSLASH {
        assert(spec_backslash_run(s) >= 1);
    }
}

/// The backslash run of a string whose first `count` units are backslashes
/// and whose next unit, if any, is not, is exactly `count`.
proof fn lemma_backslash_run_exact(s: Seq<u16>, count: int)
    requires
        0 <= count <= s.len(),
        forall|i: int| 0 <= i < count ==> s[i] == BACKSLASH,
        count < s.len() ==> s[count as int] != BACKSLASH,
    ensures
        spec_backslash_run(s) == count,
    decreases count,
{
    if count == 0 {
    } else {
        assert(s[0] == BACKSLASH);
        lemma_backslash_run_exact(s.skip(1), count - 1);
    }
}

/// The backslash run never exceeds the string, every unit inside it is a
/// backslash, and the unit after a run that stops short is not one.
proof fn lemma_backslash_run_bounds(s: Seq<u16>)
    ensures
        0 <= spec_backslash_run(s) <= s.len(),
        forall|i: int| 0 <= i < spec_backslash_run(s) ==> s[i] == BACKSLASH,
        spec_backslash_run(s) < s.len() ==> s[spec_backslash_run(s)] != BACKSLASH,
    decreases s.len(),
{
    if s.len() > 0 && s[0] == BACKSLASH {
        lemma_backslash_run_bounds(s.skip(1));
        let run = spec_backslash_run(s);
        assert(run == 1 + spec_backslash_run(s.skip(1)));
        assert forall|i: int| 0 <= i < run implies s[i] == BACKSLASH by {
            if i > 0 {
                assert(s.skip(1)[i - 1] == s[i]);
            }
        }
        if run < s.len() {
            assert(s.skip(1)[run - 1] == s[run]);
        }
    }
}

/// An argument with nothing to quote is read back verbatim as a single
/// argument by the command-line parser.
proof fn lemma_parse_unescaped(s: Seq<u16>)
    requires
        !spec_needs_escape(s),
    ensures
        spec_parse_arg(s, false) == (s, Seq::<u16>::empty()),
    decreases s.len(),
{
    if s.len() == 0 {
        assert(s =~= Seq::<u16>::empty());
    } else {
        assert(!spec_is_escape_char(s[0]));
        if s[0] == BACKSLASH {
            let run = spec_backslash_run(s);
            lemma_backslash_run_bounds(s);
            if run < s.len() {
                assert(!spec_is_escape_char(s[run]));
            }
            let rest = s.skip(run);
            assert(!spec_needs_escape(rest)) by {
                assert forall|i: int| 0 <= i < rest.len()
                    implies !spec_is_escape_char(rest[i]) by {
                    assert(rest[i] == s[i + run]);
                }
            }
            lemma_parse_unescaped(rest);
            assert(spec_backslashes(run) + rest =~= s);
        } else {
            let rest = s.skip(1);
            assert(!spec_needs_escape(rest)) by {
                assert forall|i: int| 0 <= i < rest.len()
                    implies !spec_is_escape_char(rest[i]) by {
                    assert(rest[i] == s[i + 1]);
                }
            }
            lemma_parse_unescaped(rest);
            assert(seq![s[0]] + rest =~= s);
        }
    }
}

/// Reading the escaped body up to and including the closing quote, in
/// quote mode, yields exactly the original argument and consumes the whole
/// text.
proof fn lemma_parse_escaped_body(s: Seq<u16>)
    ensures
        spec_parse_arg(spec_escape_body(s) + seq![DOUBLEQUOTE], true)
            == (s, Seq::<u16>::empty()),
    decreases s.len(),
{
    let run = spec_backslash_run(s);
    lemma_backslash_run_bounds(s);
    let t = spec_escape_body(s) + seq![DOUBLEQUOTE];
    if s.len() == 0 {
        assert(t =~= seq![DOUBLEQUOTE]);
        assert(t.skip(1) =~= Seq::<u16>::empty());
        assert(s =~= Seq::<u16>::empty());
        assert(spec_parse_arg(Seq::<u16>::empty(), false)
            == (Seq::<u16>::empty(), Seq::<u16>::empty()));
    } else if run == s.len() {
        // the whole argument is one backslash run, doubled in the body
        assert(t =~= spec_backslashes(2 * run) + seq![DOUBLEQUOTE]);
        assert(forall|i: int| 0 <= i < 2 * run ==> t[i] == BACKSLASH);
        assert(t[2 * run] == DOUBLEQUOTE);
        lemma_backslash_run_exact(t, 2 * run);
        assert(t.skip(2 * run + 1) =~= Seq::<u16>::empty());
        assert(spec_parse_arg(Seq::<u16>::empty(), false)
            == (Seq::<u16>::empty(), Seq::<u16>::empty()));
        assert((2 * run) % 2 == 0);
        assert(spec_backslashes(2 * run / 2) + Seq::<u16>::empty() =~= s);
    } else if s[run] == DOUBLEQUOTE {
        let rest = s.skip(run + 1);
        assert(t =~= spec_backslashes(2 * run + 1) + seq![DOUBLEQUOTE] + (
            spec_escape_body(rest) + seq![DOUBLEQUOTE]
        ));
        assert(forall|i: int| 0 <= i < 2 * run + 1 ==> t[i] == BACKSLASH);
        assert(t[2 * run + 1] == DOUBLEQUOTE);
        lemma_backslash_run_exact(t, 2 * run + 1);
        assert((2 * run + 1) % 2 == 1);
        assert(t.skip(2 * run + 2) =~= spec_escape_body(rest) + seq![DOUBLEQUOTE]);
        lemma_parse_escaped_body(rest);
        assert(spec_backslashes((2 * run + 1 - 1) / 2) + seq![DOUBLEQUOTE] + rest =~= s);
    } else {
        // a backslash run (possibly empty) before an ordinary unit
        let unit = s[run];
        let rest = s.skip(run + 1);
        assert(t =~= s.take(run + 1) + (spec_escape_body(rest) + seq![DOUBLEQUOTE]));
        lemma_parse_escaped_body(rest);
        let inner = seq![unit] + (spec_escape_body(rest) + seq![DOUBLEQUOTE]);
        assert(inner[0] == unit);
        assert(inner.skip(1) =~= spec_escape_body(rest) + seq![DOUBLEQUOTE]);
        assert(unit != BACKSLASH && unit != DOUBLEQUOTE);
        assert(spec_parse_arg(inner, true) == (seq![unit] + rest, Seq::<u16>::empty()));
        if run == 0 {
            assert(t =~= inner);
            assert(seq![unit] + rest =~= s);
        } else {
            assert(forall|i: int| 0 <= i < run ==> t[i] == BACKSLASH);
            assert(t[run] == unit);
            lemma_backslash_run_exact(t, run);
            assert(t.skip(run) =~= inner);
            assert(spec_backslashes(run) + (seq![unit] + rest) =~= s);
        }
    }
}

/// Copy of the tail of a wide string from the given position on.
fn tail_from(s: &Vec<u16>, from: usize) -> (r: Vec<u16>)
    requires
        from <= s@.len(),
    ensures
        r@ == s@.skip(from as int),
{
    let mut copied: Vec<u16> = Vec::new();
    let mut index: usize = from;
    while index < s.len()
        invariant
            from <= index <= s@.len(),
            copied@ == s@.subrange(from as int, index as int),
        decreases s@.len() - index,
    {
        copied.push(s[index]);
        assert(copied@ =~= s@.subrange(from as int, index + 1 as int));
        index = index + 1;
    }
    copied
}

/// Append a run of backslashes.
fn push_backslashes(out: &mut Vec<u16>, count: usize)
    ensures
        final(out)@ == old(out)@ + spec_backslashes(count as int),
{
    let mut pushed: usize = 0;
    while pushed < count
        invariant
            pushed <= count,
            out@ == old(out)@ + spec_backslashes(pushed as int),
        decreases count - pushed,
    {
        out.push(BACKSLASH);
        assert(out@ =~= old(out)@ + spec_backslashes(pushed + 1 as int));
        pushed = pushed + 1;
    }
}

/// Whether the argument holds a unit that forces quoting.
pub fn needs_escape(s: &Vec<u16>) -> (r: bool)
    ensures
        r == spec_needs_escape(s@),
{
    let mut index: usize = 0;
    while index < s.len()
        invariant
            index <= s@.len(),
            forall|i: int| 0 <= i < index ==> !spec_is_escape_char(s@[i]),
        decreases s@.len() - index,
    {
        let unit = s[index];
        if unit == SPACE || unit == LINEFEED || unit == HTAB || unit == VTAB
            || unit == DOUBLEQUOTE {
            return true;
        }
        index = index + 1;
    }
    false
}

/// Losslessly quote a launch argument for the target platform's command
/// line.
///
/// An argument without whitespace or quotes is returned as it stands.
/// Anything else is wrapped in double quotes, with embedded quotes
/// escaped and backslash runs doubled exactly where the standard
/// command-line parser would otherwise fold them into a quote, so that
/// re-tokenization reproduces the original argument
/// (see [`lemma_escape_round_trip`]).
pub fn escape(s: &Vec<u16>) -> (r: Vec<u16>)
    ensures
        r@ == spec_escape(s@),
{
    if !needs_escape(s) {
        return crate::widestring::clone_wide(s);
    }
    let mut escaped: Vec<u16> = Vec::new();
    escaped.push(DOUBLEQUOTE);
    proof {
        assert(s@.skip(0) =~= s@);
        assert(escaped@ =~= seq![DOUBLEQUOTE]);
    }
    let mut index: usize = 0;
    while index < s.len()
        invariant
            index <= s@.len(),
            escaped@ + spec_escape_body(s@.skip(index as int))
                == seq![DOUBLEQUOTE] + spec_escape_body(s@),
        decreases s@.len() - index,
    {
        let ghost prefix = escaped@;
        let ghost t = s@.skip(index as int);
        let mut stop: usize = index;
        while stop < s.len() && s[stop] == BACKSLASH
            invariant
                index <= stop <= s@.len(),
                forall|i: int| index <= i < stop ==> s@[i] == BACKSLASH,
            decreases s@.len() - stop,
        {
            stop = stop + 1;
        }
        let run: usize = stop - index;
        proof {
            assert forall|i: int| 0 <= i < run implies t[i] == BACKSLASH by {
                assert(t[i] == s@[index + i]);
            }
            if stop < s@.len() {
                assert(t[run as int] == s@[stop as int]);
            }
            lemma_backslash_run_exact(t, run as int);
        }
        if stop == s.len() {
            push_backslashes(&mut escaped, run);
            push_backslashes(&mut escaped, run);
            proof {
                assert(t.len() == run);
                assert(spec_escape_body(t) == spec_backslashes(2 * run as int));
                assert(escaped@ =~= prefix + spec_escape_body(t));
                assert(s@.skip(s@.len() as int) =~= Seq::<u16>::empty());
                assert(escaped@ + spec_escape_body(s@.skip(s@.len() as int))
                    =~= seq![DOUBLEQUOTE] + spec_escape_body(s@));
            }
            index = stop;
        } else {
            let next = s[stop];
            let ghost t_rest = s@.skip(stop + 1 as int);
            proof {
                assert(t[run as int] == next);
                assert(t.skip(run + 1 as int) =~= t_rest);
            }
            if next == DOUBLEQUOTE {
                push_backslashes(&mut escaped, run);
                push_backslashes(&mut escaped, run);
                escaped.push(BACKSLASH);
                escaped.push(DOUBLEQUOTE);
                proof {
                    assert(spec_escape_body(t) == spec_backslashes(2 * run as int + 1)
                        + seq![DOUBLEQUOTE] + spec_escape_body(t_rest));
                    assert(escaped@ =~= prefix + spec_backslashes(2 * run as int + 1)
                        + seq![DOUBLEQUOTE]);
                    assert(escaped@ + spec_escape_body(t_rest)
                        =~= seq![DOUBLEQUOTE] + spec_escape_body(s@));
                }
            } else {
                push_backslashes(&mut escaped, run);
                escaped.push(next);
                proof {
                    assert(spec_escape_body(t) == t.take(run + 1 as int)
                        + spec_escape_body(t_rest));
                    assert(t.take(run + 1 as int)
                        =~= spec_backslashes(run as int) + seq![next]);
                    assert(escaped@ =~= prefix + t.take(run + 1 as int));
                    assert(escaped@ + spec_escape_body(t_rest)
                        =~= seq![DOUBLEQUOTE] + spec_escape_body(s@));
                }
            }
            index = stop + 1;
        }
    }
    proof {
        assert(s@.skip(s@.len() as int) =~= Seq::<u16>::empty());
        assert(spec_escape_body(Seq::<u16>::empty()) =~= Seq::<u16>::empty());
        assert(escaped@ =~= seq![DOUBLEQUOTE] + spec_escape_body(s@));
    }
    escaped.push(DOUBLEQUOTE);
    proof {
        assert(escaped@ =~= seq![DOUBLEQUOTE] + spec_escape_body(s@) + seq![DOUBLEQUOTE]);
    }
    escaped
}

/// Read the first argument of a command line exactly as the target
/// platform's standard command-line parser would, returning the parsed
/// argument and the text remaining after the delimiter that ended it.
pub fn parse_first_argument(command_line: &Vec<u16>) -> (r: (Vec<u16>, Vec<u16>))
    ensures
        r.0@ == spec_parse_arg(command_line@, false).0,
        r.1@ == spec_parse_arg(command_line@, false).1,
{
    let mut argument: Vec<u16> = Vec::new();
    let mut in_quotes: bool = false;
    let mut index: usize = 0;
    proof {
        assert(command_line@.skip(0) =~= command_line@);
        assert(argument@ =~= Seq::<u16>::empty());
    }
    while index < command_line.len()
        invariant
            index <= command_line@.len(),
            spec_parse_arg(command_line@, false).0 == argument@
                + spec_parse_arg(command_line@.skip(index as int), in_quotes).0,
            spec_parse_arg(command_line@, false).1
                == spec_parse_arg(command_line@.skip(index as int), in_quotes).1,
        decreases command_line@.len() - index,
    {
        let ghost t = command_line@.skip(index as int);
        let ghost quotes_before = in_quotes;
        let ghost argument_before = argument@;
        let unit = command_line[index];
        assert(t[0] == unit);
        if unit == BACKSLASH {
            let mut stop: usize = index;
            while stop < command_line.len() && command_line[stop] == BACKSLASH
                invariant
                    index <= stop <= command_line@.len(),
                    forall|i: int| index <= i < stop ==> command_line@[i] == BACKSLASH,
                decreases command_line@.len() - stop,
            {
                stop = stop + 1;
            }
            let run: usize = stop - index;
            proof {
                assert forall|i: int| 0 <= i < run implies t[i] == BACKSLASH by {
                    assert(t[i] == command_line@[index + i]);
                }
                if stop < command_line@.len() {
                    assert(t[run as int] == command_line@[stop as int]);
                }
                lemma_backslash_run_exact(t, run as int);
            }
            if stop < command_line.len() && command_line[stop] == DOUBLEQUOTE {
                push_backslashes(&mut argument, run / 2);
                if run % 2 == 0 {
                    in_quotes = !in_quotes;
                } else {
                    argument.push(DOUBLEQUOTE);
                }
                index = stop + 1;
                proof {
                    assert(t.skip(run + 1 as int)
                        =~= command_line@.skip(index as int));
                    if run % 2 == 0 {
                        assert(argument@ =~= argument_before
                            + spec_backslashes(run as int / 2));
                    } else {
                        assert(run as int / 2 == (run as int - 1) / 2);
                        assert(argument@ =~= argument_before
                            + (spec_backslashes((run as int - 1) / 2) + seq![DOUBLEQUOTE]));
                    }
                }
            } else {
                push_backslashes(&mut argument, run);
                index = stop;
                proof {
                    assert(t.skip(run as int) =~= command_line@.skip(index as int));
                }
            }
        } else if unit == DOUBLEQUOTE {
            in_quotes = !in_quotes;
            index = index + 1;
            proof {
                assert(t.skip(1) =~= command_line@.skip(index as int));
            }
        } else if !in_quotes && (unit == SPACE || unit == HTAB) {
            let rest = tail_from(command_line, index + 1);
            proof {
                assert(t.skip(1) =~= command_line@.skip(index + 1 as int));
                assert(argument@ + Seq::<u16>::empty() =~= argument@);
            }
            return (argument, rest);
        } else {
            argument.push(unit);
            index = index + 1;
            proof {
                assert(t.skip(1) =~= command_line@.skip(index as int));
                assert(argument@ =~= argument_before + seq![t[0]]);
            }
        }
    }
    proof {
        assert(command_line@.skip(command_line@.len() as int) =~= Seq::<u16>::empty());
        assert(spec_parse_arg(Seq::<u16>::empty(), in_quotes)
            == (Seq::<u16>::empty(), Seq::<u16>::empty()));
        assert(argument@ + Seq::<u16>::empty() =~= argument@);
    }
    let rest: Vec<u16> = Vec::new();
    (argument, rest)
}

/// Quoting an argument and re-tokenizing the result with the standard
/// command-line parser reproduces the original argument exactly, with
/// nothing left over: quoting is lossless for every argument.
pub proof fn lemma_escape_round_trip(s: Seq<u16>)
    ensures
        spec_parse_arg(spec_escape(s), false) == (s, Seq::<u16>::empty()),
{
    if spec_needs_escape(s) {
        let t = spec_escape(s);
        assert(t[0] == DOUBLEQUOTE);
        assert(t.skip(1) =~= spec_escape_body(s) + seq![DOUBLEQUOTE]);
        lemma_parse_escaped_body(s);
    } else {
        lemma_parse_unescaped(s);
    }
}

} // verus!
