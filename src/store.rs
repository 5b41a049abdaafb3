//! The day's tally as it is kept in its file, and the operations on it.
//!
//! A day file is modelled as `Option<Seq<char>>`: `None` when it does not
//! exist yet. Each operation takes the file's current text and says what to
//! write back (if anything) and what to print.
use crate::codec::{decode, decode_counter, encode, encode_counter};
use crate::counter::Counter;
use crate::render::{render, render_spec, status_line, tally_text};
use vstd::prelude::*;

verus! {

/// The operations on the day's tally.
#[derive(Clone, Copy, Debug, PartialEq, Eq, Structural)]
pub enum Operation {
    /// Record a successful build.
    Success,
    /// Record a failed build.
    Fail,
    /// Print the tally.
    Status,
    /// Set the tally back to zero.
    Reset,
    /// Print the status-bar segment.
    Tmux,
}

/// Why an operation could not be carried out.
#[derive(Clone, Copy, Debug, PartialEq, Eq, Structural)]
pub enum StoreError {
    /// No marker file says where the day files are kept.
    NotInitialized,
    /// The count to be raised is already the largest that can be kept.
    CounterFull,
}

/// What an operation asks of its caller: the text to store in the day file,
/// if it is to change, and the text to print.
#[derive(Debug)]
pub struct Effect {
    pub write: Option<String>,
    pub output: String,
}

/// The result of reading the day file.
#[derive(Clone, Copy, Debug, PartialEq, Eq, Structural)]
pub struct Loaded {
    pub counter: Counter,
    /// The file is missing or corrupt and is to be written with a zero tally.
    pub rewrite: bool,
}

pub open spec fn content_of(stored: Option<&str>) -> Option<Seq<char>> {
    match stored {
        Some(s) => Some(s@),
        None => None,
    }
}

pub open spec fn text_of(w: Option<String>) -> Option<Seq<char>> {
    match w {
        Some(s) => Some(s@),
        None => None,
    }
}

/// The tally that a day file holds: zero when it is missing or corrupt.
pub open spec fn loaded(content: Option<Seq<char>>) -> Counter {
    match content {
        Some(t) => match decode(t) {
            Some(c) => c,
            None => Counter::zero_spec(),
        },
        None => Counter::zero_spec(),
    }
}

/// Reading the day file rewrites it when it is missing or corrupt.
pub open spec fn load_rewrites(content: Option<Seq<char>>) -> bool {
    match content {
        Some(t) => decode(t) is None,
        None => true,
    }
}

/// The tally after recording one more success or failure.
pub open spec fn recorded(c: Counter, succeeded: bool) -> Counter {
    if succeeded {
        Counter { success: (c.success + 1) as usize, fail: c.fail }
    } else {
        Counter { success: c.success, fail: (c.fail + 1) as usize }
    }
}

/// The operation cannot raise a count that is already at its largest.
pub open spec fn overflows(op: Operation, content: Option<Seq<char>>) -> bool {
    match op {
        Operation::Success => loaded(content).success == usize::MAX,
        Operation::Fail => loaded(content).fail == usize::MAX,
        _ => false,
    }
}

/// What `op` writes to a day file that holds `content` (`None`: nothing).
pub open spec fn write_of(op: Operation, content: Option<Seq<char>>) -> Option<Seq<char>> {
    match op {
        Operation::Success => Some(encode(recorded(loaded(content), true))),
        Operation::Fail => Some(encode(recorded(loaded(content), false))),
        Operation::Reset => Some(encode(Counter::zero_spec())),
        _ => if load_rewrites(content) {
            Some(encode(Counter::zero_spec()))
        } else {
            None
        },
    }
}

/// What `op` prints for a day file that holds `content`.
pub open spec fn output_of(op: Operation, content: Option<Seq<char>>) -> Seq<char> {
    match op {
        Operation::Status => tally_text(loaded(content)).push('\n'),
        Operation::Tmux => render_spec(loaded(content)),
        _ => Seq::empty(),
    }
}

/// The day file's text once `write` has been carried out.
pub open spec fn after(content: Option<Seq<char>>, write: Option<Seq<char>>) -> Option<Seq<char>> {
    match write {
        Some(t) => Some(t),
        None => content,
    }
}

/// `e` writes and prints what `op` calls for on `content`.
pub open spec fn effect_of(e: Effect, op: Operation, content: Option<Seq<char>>) -> bool {
    &&& text_of(e.write) == write_of(op, content)
    &&& e.output@ == output_of(op, content)
}

/// Reads a day file's text (`None`: the file does not exist). A missing or
/// corrupt file reads as zero and is to be rewritten; a line that is not a
/// number reads as zero.
pub fn load(stored: Option<&str>) -> (r: Loaded)
    ensures
        r.counter == loaded(content_of(stored)),
        r.rewrite == load_rewrites(content_of(stored)),
{
    match stored {
        None => Loaded { counter: Counter::zero(), rewrite: true },
        Some(text) => match decode_counter(text) {
            Some(c) => Loaded { counter: c, rewrite: false },
            None => Loaded { counter: Counter::zero(), rewrite: true },
        },
    }
}

/// The text that stores `c`.
pub fn save(c: Counter) -> (r: String)
    ensures
        r@ == encode(c),
{
    encode_counter(c)
}

/// The text to write back after reading, if the file was missing or corrupt.
fn repair(l: &Loaded) -> (r: Option<String>)
    ensures
        l.rewrite ==> text_of(r) == Some(encode(Counter::zero_spec())),
        !l.rewrite ==> r is None,
{
    if l.rewrite {
        Some(save(Counter::zero()))
    } else {
        None
    }
}

/// Records a successful build in the day file that holds `stored`.
pub fn success(stored: Option<&str>) -> (r: Result<Effect, StoreError>)
    ensures
        r is Err <==> overflows(Operation::Success, content_of(stored)),
        r is Err ==> r->Err_0 == StoreError::CounterFull,
        r is Ok ==> effect_of(r->Ok_0, Operation::Success, content_of(stored)),
{
    let c = load(stored).counter;
    if c.success == usize::MAX {
        return Err(StoreError::CounterFull);
    }
    let next = Counter { success: c.success + 1, fail: c.fail };
    Ok(Effect { write: Some(save(next)), output: String::new() })
}

/// Records a failed build in the day file that holds `stored`.
pub fn fail(stored: Option<&str>) -> (r: Result<Effect, StoreError>)
    ensures
        r is Err <==> overflows(Operation::Fail, content_of(stored)),
        r is Err ==> r->Err_0 == StoreError::CounterFull,
        r is Ok ==> effect_of(r->Ok_0, Operation::Fail, content_of(stored)),
{
    let c = load(stored).counter;
    if c.fail == usize::MAX {
        return Err(StoreError::CounterFull);
    }
    let next = Counter { success: c.success, fail: c.fail + 1 };
    Ok(Effect { write: Some(save(next)), output: String::new() })
}

/// Prints the tally of the day file that holds `stored` as `success | fail`.
pub fn status(stored: Option<&str>) -> (r: Effect)
    ensures
        effect_of(r, Operation::Status, content_of(stored)),
{
    let l = load(stored);
    let mut line = status_line(l.counter);
    line.append("\n");
    proof {
        reveal_strlit("\n");
        assert(line@ =~= tally_text(l.counter).push('\n'));
    }
    Effect { write: repair(&l), output: line }
}

/// Sets the day's tally to zero, whatever the file held.
pub fn reset() -> (r: Effect)
    ensures
        forall|content: Option<Seq<char>>| effect_of(r, Operation::Reset, content),
{
    Effect { write: Some(save(Counter::zero())), output: String::new() }
}

/// Prints the status-bar segment for the day file that holds `stored`.
pub fn tmux(stored: Option<&str>) -> (r: Effect)
    ensures
        effect_of(r, Operation::Tmux, content_of(stored)),
{
    let l = load(stored);
    Effect { write: repair(&l), output: render(l.counter) }
}

/// Runs `op`. `initialized` tells whether a marker file names the store
/// root; `stored` is the day file's text (`None`: it does not exist, or the
/// store is not initialized). Without a store the status-bar segment is
/// empty and every other operation fails.
pub fn execute(op: Operation, initialized: bool, stored: Option<&str>) -> (r: Result<
    Effect,
    StoreError,
>)
    ensures
        !initialized && op == Operation::Tmux ==> r is Ok && r->Ok_0.write is None
            && r->Ok_0.output@ == Seq::<char>::empty(),
        !initialized && op != Operation::Tmux ==> r == Err::<Effect, StoreError>(
            StoreError::NotInitialized,
        ),
        initialized ==> (r is Err <==> overflows(op, content_of(stored))),
        initialized && r is Err ==> r->Err_0 == StoreError::CounterFull,
        initialized && r is Ok ==> effect_of(r->Ok_0, op, content_of(stored)),
{
    if !initialized {
        return match op {
            Operation::Tmux => Ok(Effect { write: None, output: String::new() }),
            _ => Err(StoreError::NotInitialized),
        };
    }
    match op {
        Operation::Success => success(stored),
        Operation::Fail => fail(stored),
        Operation::Status => Ok(status(stored)),
        Operation::Reset => Ok(reset()),
        Operation::Tmux => Ok(tmux(stored)),
    }
}

} // verus!
