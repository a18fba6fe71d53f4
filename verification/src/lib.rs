//! # LLDB
//!
//! The decision-making core of a safe binding to the public API of
//! [LLDB](http://lldb.llvm.org/), the debugger of the LLVM project.
//!
//! LLDB's objects (debuggers, targets, processes, threads, frames, values,
//! ...) are reached through raw references that only its C interface can
//! read. Every type of this crate carries such a reference as an opaque
//! value of type `R`, chosen by the layer that talks to LLDB, and holds the
//! logic that runs around the calls into LLDB, each function with a contract:
//!
//! * walking LLDB's indexed collections (threads, frames, breakpoints,
//!   strings, ...): which index to fetch next, when to stop, and how many
//!   items remain;
//! * turning LLDB's validity flags into `Option`s and its error objects into
//!   `Result`s;
//! * classifying a process by its [`StateType`];
//! * decoding what a process writes to its output streams;
//! * reading sentinel values (an absent line number, an unset address, ...)
//!   as `None`.
//!
//! ## Important Classes
//!
//! * [`SBDebugger`]: Manages the entire debug experience and creates [`SBTarget`]s.
//! * [`SBTarget`]: The target program running under the debugger.
//! * [`SBProcess`]: The process associated with the target program.
//! * [`SBThread`]: A thread of execution. [`SBProcess`] contains [`SBThread`]s.
//! * [`SBFrame`]: One of the stack frames associated with a thread.
//! * [`SBSymbolContext`]: A container that stores various debugger related info.
//! * [`SBValue`]: The value of a variable, a register, or an expression.
//! * [`SBModule`]: An executable image and its associated object and symbol files.
//! * [`SBBreakpoint`]: A logical breakpoint and its associated settings.
//! * [`SBSymbol`]: The symbol possibly associated with a stack frame.
//! * [`SBCompileUnit`]: A compilation unit, or compiled source file.
//! * [`SBBlock`]: A lexical block.
//! * [`SBLineEntry`]: An association of a contiguous range of instructions
//!   with a source file location.
#![allow(unused_imports)]

use vstd::prelude::*;

pub mod cursor;
pub mod text;

pub mod address;
pub mod attachinfo;
pub mod block;
pub mod breakpoint;
pub mod breakpointlist;
pub mod breakpointlocation;
pub mod broadcaster;
pub mod commandinterpreter;
pub mod compileunit;
pub mod data;
pub mod debugger;
pub mod error;
pub mod event;
pub mod expressionoptions;
pub mod file;
pub mod filespec;
pub mod filespeclist;
pub mod frame;
pub mod instruction;
pub mod instructionlist;
pub mod launchinfo;
pub mod lineentry;
pub mod listener;
pub mod memoryregioninfo;
pub mod memoryregioninfolist;
pub mod module;
pub mod modulespec;
pub mod platform;
pub mod process;
pub mod processinfo;
pub mod queue;
pub mod queueitem;
pub mod stream;
pub mod stringlist;
pub mod structureddata;
pub mod symbol;
pub mod symbolcontext;
pub mod symbolcontextlist;
pub mod target;
pub mod thread;
pub mod typelist;
pub mod types;
pub mod value;
pub mod valuelist;
pub mod variablesoptions;
pub mod watchpoint;

pub use self::address::SBAddress;
pub use self::attachinfo::SBAttachInfo;
pub use self::block::SBBlock;
pub use self::breakpoint::{SBBreakpoint, SBBreakpointLocationIter};
pub use self::breakpointlist::{SBBreakpointList, SBBreakpointListIter};
pub use self::breakpointlocation::SBBreakpointLocation;
pub use self::broadcaster::SBBroadcaster;
pub use self::commandinterpreter::SBCommandInterpreter;
pub use self::compileunit::{SBCompileUnit, SBCompileUnitLineEntryIter};
pub use self::data::SBData;
pub use self::debugger::{
    SBDebugger, SBDebuggerAvailablePlatformIter, SBDebuggerPlatformIter, SBDebuggerTargetIter,
};
pub use self::error::SBError;
pub use self::event::SBEvent;
pub use self::expressionoptions::SBExpressionOptions;
pub use self::file::SBFile;
pub use self::filespec::SBFileSpec;
pub use self::filespeclist::{SBFileSpecList, SBFileSpecListIter};
pub use self::frame::SBFrame;
pub use self::instruction::SBInstruction;
pub use self::instructionlist::{SBInstructionList, SBInstructionListIter};
pub use self::launchinfo::{SBLaunchInfo, SBLaunchInfoArgumentsIter};
pub use self::lineentry::SBLineEntry;
pub use self::listener::SBListener;
pub use self::memoryregioninfo::{SBMemoryRegionInfo, SBMemoryRegionInfoDirtyPageIter};
pub use self::memoryregioninfolist::{SBMemoryRegionInfoList, SBMemoryRegionInfoListIter};
pub use self::module::{SBModule, SBModuleSectionIter, SBModuleSymbolsIter};
pub use self::modulespec::SBModuleSpec;
pub use self::platform::SBPlatform;
pub use self::process::{
    ImageToken, OutputCollector, OutputStep, SBProcess, SBProcessEvent,
    SBProcessEventRestartedReasonIter, SBProcessQueueIter, SBProcessThreadIter,
};
pub use self::processinfo::SBProcessInfo;
pub use self::queue::{SBQueue, SBQueueQueueItemIter, SBQueueThreadIter};
pub use self::queueitem::SBQueueItem;
pub use self::stream::SBStream;
pub use self::stringlist::{SBStringList, SBStringListIter};
pub use self::structureddata::{SBStructuredData, StructuredDataType};
pub use self::symbol::SBSymbol;
pub use self::symbolcontext::SBSymbolContext;
pub use self::symbolcontextlist::{SBSymbolContextList, SBSymbolContextListIter};
pub use self::target::{
    SBTarget, SBTargetBreakpointIter, SBTargetEvent, SBTargetEventModuleIter,
    SBTargetWatchpointIter,
};
pub use self::thread::{SBThread, SBThreadEvent, SBThreadFrameIter};
pub use self::typelist::{SBTypeList, SBTypeListIter};
pub use self::types::SBType;
pub use self::value::{SBValue, SBValueChildIter};
pub use self::valuelist::{SBValueList, SBValueListIter};
pub use self::variablesoptions::{SBVariablesOptions, VariableSelection};
pub use self::watchpoint::SBWatchpoint;

verus! {

/// Which syntax should be used in disassembly?
///
/// On x86, there are 2 syntaxes used for disassembly. Other
/// architectures need not be concerned by this and can just
/// use `DisassemblyFlavor::Default` all the time.
#[derive(Clone, Copy, Debug, PartialEq, Eq, Structural)]
pub enum DisassemblyFlavor {
    /// The primary syntax used by the GNU Assembler and in the Linux world
    /// (AT&T syntax): operations carry a suffix indicating the operand
    /// size, registers are prefixed with `%` and immediate values with `$`,
    /// and the source operand comes first, as in `movb $0x05, %al`.
    ATT,
    /// The default syntax.
    Default,
    /// The primary syntax used on Windows: operations are not suffixed,
    /// registers are not prefixed, and the destination operand comes
    /// first, as in `mov al, 05h`.
    Intel,
}

/// The name under which LLDB knows a disassembly flavor, if it needs one.
pub open spec fn flavor_name_spec(flavor: DisassemblyFlavor) -> Option<Seq<char>> {
    match flavor {
        DisassemblyFlavor::ATT => Some("att"@),
        DisassemblyFlavor::Default => None,
        DisassemblyFlavor::Intel => Some("intel"@),
    }
}

impl DisassemblyFlavor {
    /// The flavor name handed to LLDB when disassembling: `"att"` for AT&T
    /// syntax, `"intel"` for Intel syntax, and none for the default, which
    /// lets LLDB pick the architecture's usual syntax.
    pub fn name(&self) -> (r: Option<&'static str>)
        ensures
            match r {
                Some(s) => flavor_name_spec(*self) == Some(s@),
                None => flavor_name_spec(*self) is None,
            },
    {
        match self {
            DisassemblyFlavor::ATT => Some("att"),
            DisassemblyFlavor::Default => None,
            DisassemblyFlavor::Intel => Some("intel"),
        }
    }
}

/// The state of a process (or of one of its threads) as LLDB reports it.
#[derive(Clone, Copy, Debug, PartialEq, Eq, Structural)]
pub enum StateType {
    /// No valid state.
    Invalid,
    /// Process object is valid, but not currently loaded.
    Unloaded,
    /// Process is connected to remote debug services, but not launched or
    /// attached to anything yet.
    Connected,
    /// Process is currently trying to attach.
    Attaching,
    /// Process is currently trying to launch.
    Launching,
    /// Process or thread is stopped and can be examined.
    Stopped,
    /// Process or thread is running and can't be examined.
    Running,
    /// Process or thread is in the process of stepping and can't be examined.
    Stepping,
    /// Process or thread has crashed and can be examined.
    Crashed,
    /// Process has been detached and can't be examined.
    Detached,
    /// Process has exited and can't be examined.
    Exited,
    /// Process or thread is in a suspended state as far as the debugger is
    /// concerned while other processes or threads get the chance to run.
    Suspended,
}

} // verus!
