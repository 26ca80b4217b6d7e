//! Text of an error's chain of causes, innermost cause first.
use vstd::prelude::*;
use vstd::string::*;

verus! {

/// One link of an error chain: its message and, where one was captured and
/// is not empty, the backtrace of where it happened.
#[derive(Clone, Debug)]
pub struct Cause {
    pub message: String,
    pub backtrace: String,
}

/// The line reporting one cause.
pub open spec fn cause_line(c: Cause) -> Seq<char> {
    if c.backtrace@.len() > 0 {
        c.message@ + " This happened at "@ + c.backtrace@ + "\n"@
    } else {
        c.message@ + "\n"@
    }
}

/// The line that leads each cause after the first.
pub open spec fn chain_separator() -> Seq<char> {
    "   Which caused the following issue:\n"@
}

/// Causes given outermost first, reported innermost first.
pub open spec fn chain_text(causes: Seq<Cause>) -> Seq<char>
    decreases causes.len(),
{
    if causes.len() == 0 {
        Seq::empty()
    } else if causes.len() == 1 {
        cause_line(causes[0])
    } else {
        chain_text(causes.drop_first()) + chain_separator() + cause_line(causes[0])
    }
}

/// Reports an error chain, given outermost cause first, as text that starts
/// from the innermost cause and leads each later one with a line saying
/// that the previous caused it.
pub fn failure_to_string(causes: &Vec<Cause>) -> (r: String)
    ensures
        r@ == chain_text(causes@),
{
    let mut r = String::new();
    let mut i: usize = causes.len();
    while i > 0
        invariant
            i <= causes@.len(),
            r@ == chain_text(causes@.subrange(i as int, causes@.len() as int)),
        decreases i,
    {
        i = i - 1;
        let ghost before = r@;
        let c = &causes[i];
        if i + 1 < causes.len() {
            r.append("   Which caused the following issue:\n");
        }
        r.append(c.message.as_str());
        if c.backtrace.unicode_len() > 0 {
            r.append(" This happened at ");
            r.append(c.backtrace.as_str());
        }
        r.append("\n");
        proof {
            let rest = causes@.subrange(i as int, causes@.len() as int);
            assert(rest.drop_first() =~= causes@.subrange(i + 1, causes@.len() as int));
            assert(rest[0] == causes@[i as int]);
            if i + 1 < causes@.len() {
                assert(r@ =~= before + chain_separator() + cause_line(causes@[i as int]));
            } else {
                assert(before =~= Seq::<char>::empty());
                assert(r@ =~= cause_line(causes@[i as int]));
            }
        }
    }
    assert(causes@.subrange(0, causes@.len() as int) =~= causes@);
    r
}

} // verus!
