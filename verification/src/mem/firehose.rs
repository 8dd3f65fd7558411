//! The block-level Firehose tracer of the in-memory backend: it follows blocks
//! only, and prints the same block lines as the full tracer.
use vstd::prelude::*;
use crate::firehose::{
    begin_block_line, begin_block_text, end_block_line, end_block_text, finalize_block_line,
    finalize_block_text, init_line, init_text,
};
use crate::u256::Uint256;

pub use crate::firehose::{FirehoseHeader, NoOpTracer};

verus! {

/// What a block-level printing tracer keeps between events.
#[verifier::ext_equal]
pub struct BlockTracerState {
    /// Index of the next log in the block (reset at the end of each block).
    pub block_log_index: u64,
    /// Ordering counter (reset at the start and finalization of each block).
    pub total_ordering: u64,
}

/// A block-level tracer that produces the Firehose line of every block event.
pub struct PrinterTracer {
    block_log_index: u64,
    total_ordering: u64,
}

impl View for PrinterTracer {
    type V = BlockTracerState;

    closed spec fn view(&self) -> BlockTracerState {
        BlockTracerState { block_log_index: self.block_log_index, total_ordering: self.total_ordering }
    }
}

impl Default for PrinterTracer {
    fn default() -> (t: PrinterTracer)
        ensures
            t@ == (BlockTracerState { block_log_index: 0, total_ordering: 0 }),
    {
        PrinterTracer { block_log_index: 0, total_ordering: 0 }
    }
}

impl PrinterTracer {
    /// A tracer with both counters at zero.
    pub fn new() -> (t: PrinterTracer)
        ensures
            t@ == (BlockTracerState { block_log_index: 0, total_ordering: 0 }),
    {
        PrinterTracer::default()
    }

    /// A printing tracer is enabled.
    pub fn enabled(&self) -> (r: bool)
        ensures
            r,
    {
        true
    }

    /// The line that announces the tracer.
    pub fn record_init(&self) -> (line: String)
        ensures
            line@ == init_line(),
    {
        init_text()
    }

    /// Starts a block: resets the ordering counter.
    pub fn start_block(&mut self, block_number: u64) -> (line: String)
        ensures
            final(self)@ == (BlockTracerState { total_ordering: 0, ..old(self)@ }),
            line@ == begin_block_line(block_number),
    {
        self.total_ordering = 0;
        begin_block_text(block_number)
    }

    /// Finalizes a block: resets the ordering counter.
    pub fn finalize_block(&mut self, block_number: u64) -> (line: String)
        ensures
            final(self)@ == (BlockTracerState { total_ordering: 0, ..old(self)@ }),
            line@ == finalize_block_line(block_number),
    {
        self.total_ordering = 0;
        finalize_block_text(block_number)
    }

    /// Leaves the current block: resets the log index.
    fn exit_block(&mut self)
        ensures
            final(self)@ == (BlockTracerState { block_log_index: 0, ..old(self)@ }),
    {
        self.block_log_index = 0;
    }

    /// Ends a block, given its number, the size of its RLP encoding and the
    /// JSON text of its end data (header, uncles, total difficulty).
    pub fn end_block(&mut self, block_number: &Uint256, block_size: usize, end_block_data: &str) -> (line: String)
        ensures
            final(self)@ == (BlockTracerState { block_log_index: 0, ..old(self)@ }),
            line@ == end_block_line(*block_number, block_size, end_block_data@),
    {
        self.exit_block();
        end_block_text(block_number, block_size, end_block_data)
    }
}

/// A block-level tracer: one that prints nothing, or one that prints.
pub enum Tracer {
    NoOp(NoOpTracer),
    Printer(PrinterTracer),
}

/// A printing tracer when tracing is enabled, else one that prints nothing.
pub fn new_tracer(enabled: bool) -> (t: Tracer)
    ensures
        enabled ==> t.printer_state() == Some(
            BlockTracerState { block_log_index: 0, total_ordering: 0 },
        ),
        !enabled ==> t is NoOp,
{
    if enabled {
        Tracer::Printer(PrinterTracer::new())
    } else {
        Tracer::NoOp(NoOpTracer {})
    }
}

impl Tracer {
    /// The state of a printing tracer; `None` for one that prints nothing.
    pub open spec fn printer_state(&self) -> Option<BlockTracerState> {
        match self {
            Tracer::Printer(p) => Some(p@),
            Tracer::NoOp(_) => None,
        }
    }

    /// Whether the tracer prints.
    pub fn enabled(&self) -> (r: bool)
        ensures
            r == (self is Printer),
    {
        match self {
            Tracer::Printer(p) => p.enabled(),
            Tracer::NoOp(_) => false,
        }
    }

    /// The line that announces the tracer.
    pub fn record_init(&self) -> (line: Option<String>)
        ensures
            self is NoOp ==> line is None,
            self is Printer ==> (line matches Some(l) && l@ == init_line()),
    {
        match self {
            Tracer::Printer(p) => Some(p.record_init()),
            Tracer::NoOp(_) => None,
        }
    }

    /// Starts a block.
    pub fn start_block(&mut self, block_number: u64) -> (line: Option<String>)
        ensures
            (*old(self)) is NoOp ==> line is None && (*final(self)) is NoOp,
            old(self).printer_state() matches Some(st) ==> {
                &&& final(self).printer_state() == Some(BlockTracerState { total_ordering: 0, ..st })
                &&& line matches Some(l) && l@ == begin_block_line(block_number)
            },
    {
        match self {
            Tracer::Printer(p) => Some(p.start_block(block_number)),
            Tracer::NoOp(_) => None,
        }
    }

    /// Finalizes a block.
    pub fn finalize_block(&mut self, block_number: u64) -> (line: Option<String>)
        ensures
            (*old(self)) is NoOp ==> line is None && (*final(self)) is NoOp,
            old(self).printer_state() matches Some(st) ==> {
                &&& final(self).printer_state() == Some(BlockTracerState { total_ordering: 0, ..st })
                &&& line matches Some(l) && l@ == finalize_block_line(block_number)
            },
    {
        match self {
            Tracer::Printer(p) => Some(p.finalize_block(block_number)),
            Tracer::NoOp(_) => None,
        }
    }

    /// Ends a block: see `PrinterTracer::end_block`.
    pub fn end_block(&mut self, block_number: &Uint256, block_size: usize, end_block_data: &str) -> (line: Option<String>)
        ensures
            (*old(self)) is NoOp ==> line is None && (*final(self)) is NoOp,
            old(self).printer_state() matches Some(st) ==> {
                &&& final(self).printer_state() == Some(BlockTracerState { block_log_index: 0, ..st })
                &&& line matches Some(l) && l@ == end_block_line(
                    *block_number,
                    block_size,
                    end_block_data@,
                )
            },
    {
        match self {
            Tracer::Printer(p) => Some(p.end_block(block_number, block_size, end_block_data)),
            Tracer::NoOp(_) => None,
        }
    }
}

} // verus!
