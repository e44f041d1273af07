//! Where in the source an operation was asked for, as far as the call stack
//! and the debug information of the running program can tell.

use vstd::prelude::*;
use vstd::string::StringExecFns;

verus! {

/// How many frames up the stack the caller of an operation is looked for.
pub const STACKTRACE_DEPTH: usize = 5;

/// A frame of the call stack, as `backtrace` hands it out. Nothing is read
/// from it here: it is only passed back for resolution.
#[verifier::external_type_specification]
#[verifier::external_body]
pub struct ExFrame(backtrace::Frame);

/// What one resolved symbol tells about a place in the source.
pub struct SymbolInfo {
    pub filename: Option<String>,
    pub lineno: Option<u32>,
}

/// A place in the source: a file and a line.
#[derive(Debug)]
pub struct DebugInfo {
    pub lineno: u32,
    pub filename: String,
}

/// Whether any of the symbols names a file or a line.
pub open spec fn located(symbols: Seq<SymbolInfo>) -> bool {
    exists|i: int|
        0 <= i < symbols.len() && (symbols[i].filename is Some || symbols[i].lineno is Some)
}

/// The file name of the last symbol that carries one, and the empty text
/// where none does.
pub open spec fn last_filename(symbols: Seq<SymbolInfo>) -> Seq<char>
    decreases symbols.len(),
{
    if symbols.len() == 0 {
        Seq::empty()
    } else {
        match symbols.last().filename {
            Some(name) => name@,
            None => last_filename(symbols.drop_last()),
        }
    }
}

/// The line of the last symbol that carries one, and 0 where none does.
pub open spec fn last_lineno(symbols: Seq<SymbolInfo>) -> u32
    decreases symbols.len(),
{
    if symbols.len() == 0 {
        0
    } else {
        match symbols.last().lineno {
            Some(line) => line,
            None => last_lineno(symbols.drop_last()),
        }
    }
}

impl DebugInfo {
    /// Gathers the place that the symbols of one address describe. An address
    /// inside inlined code resolves to several symbols, the function that was
    /// inlined first and the one that holds it last: the last file name and
    /// the last line given win. Symbols that say nothing give no place at all.
    pub fn from_symbols(symbols: &Vec<SymbolInfo>) -> (info: Option<DebugInfo>)
        ensures
            info is Some <==> located(symbols@),
            info matches Some(d) ==> d.filename@ == last_filename(symbols@) && d.lineno
                == last_lineno(symbols@),
    {
        let mut filename = String::new();
        let mut lineno: u32 = 0;
        let mut found = false;
        let mut i: usize = 0;
        while i < symbols.len()
            invariant
                i <= symbols.len(),
                filename@ == last_filename(symbols@.take(i as int)),
                lineno == last_lineno(symbols@.take(i as int)),
                found == located(symbols@.take(i as int)),
            decreases symbols.len() - i,
        {
            let ghost before = symbols@.take(i as int);
            let ghost after = symbols@.take(i + 1);
            assert(after.drop_last() == before);
            assert(after.last() == symbols@[i as int]);
            match &symbols[i].filename {
                Some(name) => {
                    filename = name.clone();
                    found = true;
                },
                None => {},
            }
            match symbols[i].lineno {
                Some(line) => {
                    lineno = line;
                    found = true;
                },
                None => {},
            }
            proof {
                if located(before) {
                    let k = choose|k: int|
                        0 <= k < before.len() && (before[k].filename is Some
                            || before[k].lineno is Some);
                    assert(after[k] == before[k]);
                }
                if located(after) && !found {
                    let k = choose|k: int|
                        0 <= k < after.len() && (after[k].filename is Some
                            || after[k].lineno is Some);
                    assert(k < i);
                    assert(before[k] == after[k]);
                }
                if found && !located(before) {
                    assert(after[i as int].filename is Some || after[i as int].lineno is Some);
                }
            }
            i = i + 1;
        }
        assert(symbols@.take(i as int) == symbols@);
        if found {
            Some(DebugInfo { lineno, filename })
        } else {
            None
        }
    }
}

/// Takes a frame in during a walk of the stack, and says whether the walk is
/// to go on: it ends once `limit` frames are held.
pub fn keep_frame(frames: &mut Vec<backtrace::Frame>, frame: backtrace::Frame, limit: usize) -> (more:
    bool)
    ensures
        final(frames)@ == old(frames)@.push(frame),
        more == (old(frames)@.len() + 1 < limit),
{
    frames.push(frame);
    frames.len() < limit
}

/// Takes in what one symbol tells during the resolution of an address.
pub fn keep_symbol(symbols: &mut Vec<SymbolInfo>, filename: Option<&str>, lineno: Option<u32>)
    ensures
        final(symbols)@.len() == old(symbols)@.len() + 1,
        final(symbols)@.drop_last() == old(symbols)@,
        final(symbols)@.last().lineno == lineno,
        final(symbols)@.last().filename is Some == filename is Some,
        filename matches Some(name) ==> final(symbols)@.last().filename->0@ == name@,
{
    let filename = match filename {
        Some(name) => Some(String::from_str(name)),
        None => None,
    };
    symbols.push(SymbolInfo { filename, lineno });
    assert(symbols@.drop_last() == old(symbols)@);
}

/// Calls `backtrace::trace`, which hands the frames of the current call stack
/// to a callback, innermost first, until the callback returns `false`. The
/// callback is `keep_frame`. Which frames come back depends on the running
/// program, so nothing is claimed of them.
#[verifier::external_body]
fn walk_stack(limit: usize) -> (frames: Vec<backtrace::Frame>) {
    let mut frames = Vec::new();
    backtrace::trace(|frame| keep_frame(&mut frames, frame.clone(), limit));
    frames
}

/// Calls `backtrace::resolve` on the frame's instruction pointer, which hands
/// each symbol found for that address to a callback. The callback is
/// `keep_symbol`, on the symbol's file name (where it is valid UTF-8) and its
/// line. What is found depends on the debug information at hand, so nothing
/// is claimed of it.
#[verifier::external_body]
fn resolve_symbols(frame: &backtrace::Frame) -> (symbols: Vec<SymbolInfo>) {
    let mut symbols = Vec::new();
    backtrace::resolve(frame.ip(), |symbol| {
        keep_symbol(&mut symbols, symbol.filename().and_then(|f| f.to_str()), symbol.lineno())
    });
    symbols
}

/// The place in the source that the frame `depth` levels up the stack is
/// executing, counting the innermost frame as level 1. There is none where
/// `depth` is 0, where the stack is shallower than that, or where the frame's
/// address resolves to nothing.
pub fn get_caller_debug_info(depth: usize) -> (info: Option<DebugInfo>)
    ensures
        depth == 0 ==> info is None,
{
    if depth == 0 {
        return None;
    }
    let frames = walk_stack(depth);
    match frame_index(frames.len(), depth) {
        Some(index) => {
            let symbols = resolve_symbols(&frames[index]);
            DebugInfo::from_symbols(&symbols)
        },
        None => None,
    }
}

/// Which of the frames that a walk of the stack brought back is the one
/// `depth` levels up, counting the innermost as level 1: the frame at
/// `depth - 1`, where the walk held that many.
pub fn frame_index(held: usize, depth: usize) -> (index: Option<usize>)
    ensures
        index == if 1 <= depth <= held {
            Some((depth - 1) as usize)
        } else {
            None
        },
{
    if depth == 0 || held < depth {
        None
    } else {
        Some(depth - 1)
    }
}

} // verus!
