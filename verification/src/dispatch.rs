//! The trampoline and dispatch layer: every kernel operation is erased to
//! the uniform `(context, argument words) -> word` call shape. The dispatch
//! table is an ordered sequence of trampolines whose position is the
//! platform's externally fixed ordinal; unimplemented ordinals hold stub
//! entries that always fail fatally with their ordinal and symbolic name.

use vstd::prelude::*;

use crate::arena::{has_nul, splice, str_at, valid_range, Allocation};
use crate::base::{WIPICError, WIPICErrorKind, WIPICMemoryId, WIPICResult, WIPICWord};
use crate::codec::{encode_i32, i32_as_word, le32_bytes};
use crate::error::{word_of_error_code, WIPICErrorCode};
use crate::kernel::{
    allocate, calloc, combine_timeout, current_time, def_timer, free, get_free_memory,
    get_resource, get_resource_id, get_system_property, get_total_memory, printk,
    property_lookup, set_timer, unset_timer, PropertyLookup, WIPICContext,
    SIMULATED_MEMORY_SIZE,
};
use crate::resources::{id_lookup, normalized_name};
use crate::scheduler::PendingTimer;
use crate::timer::{timer_bytes, timer_of_bytes, WIPICTimer, TIMER_RECORD_SIZE};

verus! {

/// One dispatch-table entry: a kernel operation, or a diagnosable stub for
/// an ordinal that is intentionally unimplemented.
#[derive(Clone, Copy, Debug)]
pub enum WIPICMethodBody {
    /// Logging stub at ordinal 0.
    Printk,
    /// An unimplemented ordinal, carrying its number and symbolic name.
    Stub {
        /// The entry's fixed position in the table.
        ordinal: WIPICWord,
        /// The platform's symbolic name of the operation.
        name: &'static str,
    },
    /// Memory allocation.
    Alloc,
    /// Zero-filled memory allocation.
    Calloc,
    /// Memory release.
    Free,
    /// Simulated total-memory report.
    GetTotalMemory,
    /// Simulated free-memory report.
    GetFreeMemory,
    /// Writes a zeroed timer record.
    DefTimer,
    /// Arms a timer from its record.
    SetTimer,
    /// The deliberate timer-cancellation no-op.
    UnsetTimer,
    /// Reads the backend clock.
    CurrentTime,
    /// Looks up a named system property.
    GetSystemProperty,
    /// Looks a resource id up by name.
    GetResourceId,
    /// Copies a resource into guest memory.
    GetResource,
}

/// The declared argument count of an entry; callers always pass at least
/// this many words, and any extra words are ignored.
pub open spec fn arity(e: WIPICMethodBody) -> nat {
    match e {
        WIPICMethodBody::Printk => 1,
        WIPICMethodBody::Stub { .. } => 0,
        WIPICMethodBody::Alloc => 1,
        WIPICMethodBody::Calloc => 1,
        WIPICMethodBody::Free => 1,
        WIPICMethodBody::GetTotalMemory => 0,
        WIPICMethodBody::GetFreeMemory => 0,
        WIPICMethodBody::DefTimer => 2,
        WIPICMethodBody::SetTimer => 4,
        WIPICMethodBody::UnsetTimer => 1,
        WIPICMethodBody::CurrentTime => 0,
        WIPICMethodBody::GetSystemProperty => 3,
        WIPICMethodBody::GetResourceId => 2,
        WIPICMethodBody::GetResource => 3,
    }
}

/// Whether an entry is the stub with the given ordinal and symbolic name.
pub open spec fn is_stub(e: WIPICMethodBody, ord: int, stub_name: Seq<char>) -> bool {
    e matches WIPICMethodBody::Stub { ordinal, name } && ordinal == ord && name@ == stub_name
}

/// Whether a fatal error carries exactly these structured fields.
pub open spec fn fatal_ok(
    e: WIPICError,
    kind: WIPICErrorKind,
    op_name: Seq<char>,
    ordinal: WIPICWord,
    args: Seq<WIPICWord>,
) -> bool {
    &&& e.kind == kind
    &&& e.op@ == op_name
    &&& e.ordinal == ordinal
    &&& e.args@ == args
}

/// Builds the structured fatal error for a failed call.
fn fatal(
    kind: WIPICErrorKind,
    op: &'static str,
    ordinal: WIPICWord,
    args: &[WIPICWord],
) -> (r: WIPICError)
    ensures
        fatal_ok(r, kind, op@, ordinal, args@),
{
    WIPICError { kind, op, ordinal, args: vstd::slice::slice_to_vec(args) }
}

/// Generates the diagnosable stub entry for an unimplemented ordinal.
pub fn gen_stub(id: WIPICWord, name: &'static str) -> (r: WIPICMethodBody)
    ensures
        is_stub(r, id as int, name@),
{
    WIPICMethodBody::Stub { ordinal: id, name }
}

/// What invoking an entry does: the uniform word-in/word-out contract of
/// every trampoline, case by case over the operations of the kernel table.
pub open spec fn invoke_post(
    entry: WIPICMethodBody,
    pre: WIPICContext,
    post: WIPICContext,
    ordinal: WIPICWord,
    args: Seq<WIPICWord>,
    r: WIPICResult<WIPICWord>,
) -> bool {
    match entry {
        WIPICMethodBody::Printk => post == pre && r == Ok::<WIPICWord, WIPICError>(0),
        WIPICMethodBody::Stub { ordinal: o, name } => post == pre && (r matches Err(e)
            && fatal_ok(e, WIPICErrorKind::UnimplementedOrdinal, name@, o, args)),
        WIPICMethodBody::Alloc => {
            &&& post.arena.mem@ == pre.arena.mem@
            &&& post.scheduler == pre.scheduler
            &&& post.resources == pre.resources
            &&& if pre.arena.can_alloc(args[0]) {
                &&& r == Ok::<WIPICWord, WIPICError>(pre.arena.allocs@.len() as u32)
                &&& post.arena.allocs@ == pre.arena.allocs@.push(
                    Allocation { addr: pre.arena.next, size: args[0], live: true },
                )
                &&& post.arena.next == pre.arena.next + args[0]
            } else {
                &&& post == pre
                &&& (r matches Err(e) && fatal_ok(
                    e,
                    WIPICErrorKind::OutOfMemory,
                    "MC_knlAlloc"@,
                    ordinal,
                    args,
                ))
            }
        },
        WIPICMethodBody::Calloc => {
            &&& post.scheduler == pre.scheduler
            &&& post.resources == pre.resources
            &&& if pre.arena.can_alloc(args[0]) {
                &&& r == Ok::<WIPICWord, WIPICError>(pre.arena.allocs@.len() as u32)
                &&& post.arena.allocs@ == pre.arena.allocs@.push(
                    Allocation { addr: pre.arena.next, size: args[0], live: true },
                )
                &&& post.arena.next == pre.arena.next + args[0]
                &&& post.arena.mem@ == splice(
                    pre.arena.mem@,
                    pre.arena.next as int,
                    Seq::new(args[0] as nat, |i: int| 0u8),
                )
            } else {
                &&& post == pre
                &&& (r matches Err(e) && fatal_ok(
                    e,
                    WIPICErrorKind::OutOfMemory,
                    "MC_knlCalloc"@,
                    ordinal,
                    args,
                ))
            }
        },
        WIPICMethodBody::Free => {
            &&& post.arena.mem@ == pre.arena.mem@
            &&& post.arena.next == pre.arena.next
            &&& post.scheduler == pre.scheduler
            &&& post.resources == pre.resources
            &&& if pre.arena.valid_handle(WIPICMemoryId(args[0])) {
                &&& r == Ok::<WIPICWord, WIPICError>(args[0])
                &&& post.arena.allocs@ == pre.arena.allocs@.update(
                    args[0] as int,
                    Allocation { live: false, ..pre.arena.allocs@[args[0] as int] },
                )
            } else {
                &&& post == pre
                &&& (r matches Err(e) && fatal_ok(
                    e,
                    WIPICErrorKind::InvalidMemoryId,
                    "MC_knlFree"@,
                    ordinal,
                    args,
                ))
            }
        },
        WIPICMethodBody::GetTotalMemory => post == pre && r == Ok::<WIPICWord, WIPICError>(
            SIMULATED_MEMORY_SIZE as u32,
        ),
        WIPICMethodBody::GetFreeMemory => post == pre && r == Ok::<WIPICWord, WIPICError>(
            SIMULATED_MEMORY_SIZE as u32,
        ),
        WIPICMethodBody::DefTimer => {
            &&& post.arena.allocs@ == pre.arena.allocs@
            &&& post.arena.next == pre.arena.next
            &&& post.scheduler == pre.scheduler
            &&& post.resources == pre.resources
            &&& if valid_range(pre.arena.mem@, args[0] as int, TIMER_RECORD_SIZE as int) {
                &&& r == Ok::<WIPICWord, WIPICError>(0)
                &&& post.arena.mem@ == splice(
                    pre.arena.mem@,
                    args[0] as int,
                    timer_bytes(
                        WIPICTimer {
                            unk1: 0,
                            unk2: 0,
                            unk3: 0,
                            time: 0,
                            param: 0,
                            unk4: 0,
                            fn_callback: args[1],
                        },
                    ),
                )
            } else {
                &&& post.arena.mem@ == pre.arena.mem@
                &&& (r matches Err(e) && fatal_ok(
                    e,
                    WIPICErrorKind::InvalidAddress,
                    "MC_knlDefTimer"@,
                    ordinal,
                    args,
                ))
            }
        },
        WIPICMethodBody::SetTimer => {
            &&& post.arena == pre.arena
            &&& post.resources == pre.resources
            &&& post.scheduler.now == pre.scheduler.now
            &&& {
                let delay = combine_timeout(args[1], args[2]);
                if !valid_range(pre.arena.mem@, args[0] as int, TIMER_RECORD_SIZE as int) {
                    &&& post.scheduler.pending@ == pre.scheduler.pending@
                    &&& (r matches Err(e) && fatal_ok(
                        e,
                        WIPICErrorKind::InvalidAddress,
                        "MC_knlSetTimer"@,
                        ordinal,
                        args,
                    ))
                } else {
                    let record = timer_of_bytes(
                        pre.arena.mem@.subrange(args[0] as int, args[0] + TIMER_RECORD_SIZE),
                    );
                    if pre.scheduler.now + delay <= u64::MAX {
                        &&& r == Ok::<WIPICWord, WIPICError>(0)
                        &&& post.scheduler.pending@ == pre.scheduler.pending@.push(
                            PendingTimer {
                                fire_at: (pre.scheduler.now + delay) as u64,
                                callback: record.fn_callback,
                                param: args[3],
                            },
                        )
                    } else {
                        &&& post.scheduler.pending@ == pre.scheduler.pending@
                        &&& (r matches Err(e) && fatal_ok(
                            e,
                            WIPICErrorKind::ClockOverflow,
                            "MC_knlSetTimer"@,
                            ordinal,
                            args,
                        ))
                    }
                }
            }
        },
        WIPICMethodBody::UnsetTimer => post == pre && r == Ok::<WIPICWord, WIPICError>(0),
        WIPICMethodBody::CurrentTime => post == pre && r == Ok::<WIPICWord, WIPICError>(
            pre.scheduler.now as u32,
        ),
        WIPICMethodBody::GetSystemProperty => {
            &&& post.arena.allocs@ == pre.arena.allocs@
            &&& post.arena.next == pre.arena.next
            &&& post.scheduler == pre.scheduler
            &&& post.resources == pre.resources
            &&& {
                let mem0 = pre.arena.mem@;
                let mem1 = post.arena.mem@;
                if !has_nul(mem0, args[0] as int) {
                    &&& mem1 == mem0
                    &&& (r matches Err(e) && fatal_ok(
                        e,
                        WIPICErrorKind::UnterminatedString,
                        "MC_knlGetSystemProperty"@,
                        ordinal,
                        args,
                    ))
                } else {
                    match property_lookup(str_at(mem0, args[0] as int)) {
                        PropertyLookup::Unknown => r == Ok::<WIPICWord, WIPICError>(
                            word_of_error_code(WIPICErrorCode::INVALID),
                        ) && mem1 == mem0,
                        PropertyLookup::NotSupported => r == Ok::<WIPICWord, WIPICError>(
                            word_of_error_code(WIPICErrorCode::NOTSUP),
                        ) && mem1 == mem0,
                        PropertyLookup::Value(v) => {
                            if args[2] < v.len() + 1 {
                                r == Ok::<WIPICWord, WIPICError>(
                                    word_of_error_code(WIPICErrorCode::SHORTBUF),
                                ) && mem1 == mem0
                            } else if args[1] + v.len() + 1 <= mem0.len() {
                                r == Ok::<WIPICWord, WIPICError>(
                                    word_of_error_code(WIPICErrorCode::SUCCESS),
                                ) && mem1 == splice(mem0, args[1] as int, v + seq![0u8])
                            } else {
                                &&& mem1 == mem0
                                &&& (r matches Err(e) && fatal_ok(
                                    e,
                                    WIPICErrorKind::InvalidAddress,
                                    "MC_knlGetSystemProperty"@,
                                    ordinal,
                                    args,
                                ))
                            }
                        },
                    }
                }
            }
        },
        WIPICMethodBody::GetResourceId => {
            &&& post.arena.allocs@ == pre.arena.allocs@
            &&& post.arena.next == pre.arena.next
            &&& post.scheduler == pre.scheduler
            &&& post.resources == pre.resources
            &&& {
                let mem0 = pre.arena.mem@;
                let mem1 = post.arena.mem@;
                if !has_nul(mem0, args[0] as int) {
                    &&& mem1 == mem0
                    &&& (r matches Err(e) && fatal_ok(
                        e,
                        WIPICErrorKind::UnterminatedString,
                        "MC_knlGetResourceID"@,
                        ordinal,
                        args,
                    ))
                } else {
                    let res_name = normalized_name(str_at(mem0, args[0] as int));
                    match id_lookup(pre.resources.entries@, res_name) {
                        None => r == Ok::<WIPICWord, WIPICError>(i32_as_word(-1i32)) && mem1
                            == mem0,
                        Some(i) => {
                            let size = pre.resources.entries@[i].data@.len();
                            if valid_range(mem0, args[1] as int, 4) {
                                r == Ok::<WIPICWord, WIPICError>(i32_as_word(i as i32)) && mem1
                                    == splice(mem0, args[1] as int, le32_bytes(size as u32))
                            } else {
                                &&& mem1 == mem0
                                &&& (r matches Err(e) && fatal_ok(
                                    e,
                                    WIPICErrorKind::InvalidAddress,
                                    "MC_knlGetResourceID"@,
                                    ordinal,
                                    args,
                                ))
                            }
                        },
                    }
                }
            }
        },
        WIPICMethodBody::GetResource => {
            &&& post.arena.allocs@ == pre.arena.allocs@
            &&& post.arena.next == pre.arena.next
            &&& post.scheduler == pre.scheduler
            &&& post.resources == pre.resources
            &&& {
                let mem0 = pre.arena.mem@;
                let mem1 = post.arena.mem@;
                if args[0] >= pre.resources.entries@.len() {
                    &&& mem1 == mem0
                    &&& (r matches Err(e) && fatal_ok(
                        e,
                        WIPICErrorKind::UnknownResourceId,
                        "MC_knlGetResource"@,
                        ordinal,
                        args,
                    ))
                } else {
                    let data = pre.resources.entries@[args[0] as int].data@;
                    if data.len() > args[2] {
                        r == Ok::<WIPICWord, WIPICError>(i32_as_word(-1i32)) && mem1 == mem0
                    } else if !pre.arena.valid_handle(WIPICMemoryId(args[1])) {
                        &&& mem1 == mem0
                        &&& (r matches Err(e) && fatal_ok(
                            e,
                            WIPICErrorKind::InvalidMemoryId,
                            "MC_knlGetResource"@,
                            ordinal,
                            args,
                        ))
                    } else if valid_range(
                        mem0,
                        pre.arena.handle_addr(WIPICMemoryId(args[1])) as int,
                        data.len() as int,
                    ) {
                        r == Ok::<WIPICWord, WIPICError>(0) && mem1 == splice(
                            mem0,
                            pre.arena.handle_addr(WIPICMemoryId(args[1])) as int,
                            data,
                        )
                    } else {
                        &&& mem1 == mem0
                        &&& (r matches Err(e) && fatal_ok(
                            e,
                            WIPICErrorKind::InvalidAddress,
                            "MC_knlGetResource"@,
                            ordinal,
                            args,
                        ))
                    }
                }
            }
        },
    }
}

/// The uniform trampoline: decodes the entry's declared argument words,
/// invokes the operation, and encodes its result as a single word, `0`
/// where the operation returns nothing. Guest-visible error codes come back
/// as ordinary successful words; fatal failures carry the operation's
/// symbolic name, the ordinal and the raw argument words.
#[verifier::rlimit(100)]
pub fn invoke(
    context: &mut WIPICContext,
    entry: &WIPICMethodBody,
    ordinal: WIPICWord,
    args: &[WIPICWord],
) -> (r: WIPICResult<WIPICWord>)
    requires
        old(context).wf(),
        args@.len() >= arity(*entry),
    ensures
        final(context).wf(),
        invoke_post(*entry, *old(context), *final(context), ordinal, args@, r),
{
    match *entry {
        WIPICMethodBody::Printk => match printk(context, args[0]) {
            Ok(()) => Ok(0),
            Err(k) => Err(fatal(k, "MC_knlPrintk", ordinal, args)),
        },
        WIPICMethodBody::Stub { ordinal: o, name } => Err(
            fatal(WIPICErrorKind::UnimplementedOrdinal, name, o, args),
        ),
        WIPICMethodBody::Alloc => match allocate(context, args[0]) {
            Ok(id) => Ok(id.0),
            Err(k) => Err(fatal(k, "MC_knlAlloc", ordinal, args)),
        },
        WIPICMethodBody::Calloc => match calloc(context, args[0]) {
            Ok(id) => Ok(id.0),
            Err(k) => Err(fatal(k, "MC_knlCalloc", ordinal, args)),
        },
        WIPICMethodBody::Free => match free(context, WIPICMemoryId(args[0])) {
            Ok(id) => Ok(id.0),
            Err(k) => Err(fatal(k, "MC_knlFree", ordinal, args)),
        },
        WIPICMethodBody::GetTotalMemory => match get_total_memory(context) {
            Ok(v) => Ok(encode_i32(v)),
            Err(k) => Err(fatal(k, "MC_knlGetTotalMemory", ordinal, args)),
        },
        WIPICMethodBody::GetFreeMemory => match get_free_memory(context) {
            Ok(v) => Ok(encode_i32(v)),
            Err(k) => Err(fatal(k, "MC_knlGetFreeMemory", ordinal, args)),
        },
        WIPICMethodBody::DefTimer => match def_timer(context, args[0], args[1]) {
            Ok(()) => Ok(0),
            Err(k) => Err(fatal(k, "MC_knlDefTimer", ordinal, args)),
        },
        WIPICMethodBody::SetTimer => match set_timer(
            context,
            args[0],
            args[1],
            args[2],
            args[3],
        ) {
            Ok(()) => Ok(0),
            Err(k) => Err(fatal(k, "MC_knlSetTimer", ordinal, args)),
        },
        WIPICMethodBody::UnsetTimer => match unset_timer(context, args[0]) {
            Ok(()) => Ok(0),
            Err(k) => Err(fatal(k, "MC_knlUnsetTimer", ordinal, args)),
        },
        WIPICMethodBody::CurrentTime => Ok(current_time(context)),
        WIPICMethodBody::GetSystemProperty => match get_system_property(
            context,
            args[0],
            args[1],
            args[2],
        ) {
            Ok(code) => Ok(WIPICErrorCode::from_rust(code)),
            Err(k) => Err(fatal(k, "MC_knlGetSystemProperty", ordinal, args)),
        },
        WIPICMethodBody::GetResourceId => {
            let res_name = match context.arena.read_null_terminated_string(args[0]) {
                Ok(n) => n,
                Err(k) => {
                    return Err(fatal(k, "MC_knlGetResourceID", ordinal, args));
                },
            };
            match get_resource_id(context, res_name.as_slice(), args[1]) {
                Ok(v) => Ok(encode_i32(v)),
                Err(k) => Err(fatal(k, "MC_knlGetResourceID", ordinal, args)),
            }
        },
        WIPICMethodBody::GetResource => match get_resource(
            context,
            args[0],
            WIPICMemoryId(args[1]),
            args[2],
        ) {
            Ok(v) => Ok(encode_i32(v)),
            Err(k) => Err(fatal(k, "MC_knlGetResource", ordinal, args)),
        },
    }
}

/// Builds the kernel dispatch table in the platform's fixed ordinal order,
/// stubs filling every intentionally unimplemented position; the caller
/// supplies the late-bound extension entry at ordinal 33.
pub fn get_kernel_method_table(reserved1: WIPICMethodBody) -> (r: Vec<WIPICMethodBody>)
    ensures
        r@.len() == 34,
        r@[0] == WIPICMethodBody::Printk,
        is_stub(r@[1], 1, "MC_knlSprintk"@),
        is_stub(r@[2], 2, "MC_knlGetExecNames"@),
        is_stub(r@[3], 3, "MC_knlExecute"@),
        is_stub(r@[4], 4, "MC_knlMExecute"@),
        is_stub(r@[5], 5, "MC_knlLoad"@),
        is_stub(r@[6], 6, "MC_knlMLoad"@),
        is_stub(r@[7], 7, "MC_knlExit"@),
        is_stub(r@[8], 8, "MC_knlProgramStop"@),
        is_stub(r@[9], 9, "MC_knlGetCurProgramID"@),
        is_stub(r@[10], 10, "MC_knlGetParentProgramID"@),
        is_stub(r@[11], 11, "MC_knlGetAppManagerID"@),
        is_stub(r@[12], 12, "MC_knlGetProgramInfo"@),
        is_stub(r@[13], 13, "MC_knlGetAccessLevel"@),
        is_stub(r@[14], 14, "MC_knlGetProgramName"@),
        is_stub(r@[15], 15, "MC_knlCreateSharedBuf"@),
        is_stub(r@[16], 16, "MC_knlDestroySharedBuf"@),
        is_stub(r@[17], 17, "MC_knlGetSharedBuf"@),
        is_stub(r@[18], 18, "MC_knlGetSharedBufSize"@),
        is_stub(r@[19], 19, "MC_knlResizeSharedBuf"@),
        r@[20] == WIPICMethodBody::Alloc,
        r@[21] == WIPICMethodBody::Calloc,
        r@[22] == WIPICMethodBody::Free,
        r@[23] == WIPICMethodBody::GetTotalMemory,
        r@[24] == WIPICMethodBody::GetFreeMemory,
        r@[25] == WIPICMethodBody::DefTimer,
        r@[26] == WIPICMethodBody::SetTimer,
        r@[27] == WIPICMethodBody::UnsetTimer,
        r@[28] == WIPICMethodBody::CurrentTime,
        r@[29] == WIPICMethodBody::GetSystemProperty,
        is_stub(r@[30], 30, "MC_knlSetSystemProperty"@),
        r@[31] == WIPICMethodBody::GetResourceId,
        r@[32] == WIPICMethodBody::GetResource,
        r@[33] == reserved1,
{
    let mut table: Vec<WIPICMethodBody> = Vec::new();
    table.push(WIPICMethodBody::Printk);
    table.push(gen_stub(1, "MC_knlSprintk"));
    table.push(gen_stub(2, "MC_knlGetExecNames"));
    table.push(gen_stub(3, "MC_knlExecute"));
    table.push(gen_stub(4, "MC_knlMExecute"));
    table.push(gen_stub(5, "MC_knlLoad"));
    table.push(gen_stub(6, "MC_knlMLoad"));
    table.push(gen_stub(7, "MC_knlExit"));
    table.push(gen_stub(8, "MC_knlProgramStop"));
    table.push(gen_stub(9, "MC_knlGetCurProgramID"));
    table.push(gen_stub(10, "MC_knlGetParentProgramID"));
    table.push(gen_stub(11, "MC_knlGetAppManagerID"));
    table.push(gen_stub(12, "MC_knlGetProgramInfo"));
    table.push(gen_stub(13, "MC_knlGetAccessLevel"));
    table.push(gen_stub(14, "MC_knlGetProgramName"));
    table.push(gen_stub(15, "MC_knlCreateSharedBuf"));
    table.push(gen_stub(16, "MC_knlDestroySharedBuf"));
    table.push(gen_stub(17, "MC_knlGetSharedBuf"));
    table.push(gen_stub(18, "MC_knlGetSharedBufSize"));
    table.push(gen_stub(19, "MC_knlResizeSharedBuf"));
    table.push(WIPICMethodBody::Alloc);
    table.push(WIPICMethodBody::Calloc);
    table.push(WIPICMethodBody::Free);
    table.push(WIPICMethodBody::GetTotalMemory);
    table.push(WIPICMethodBody::GetFreeMemory);
    table.push(WIPICMethodBody::DefTimer);
    table.push(WIPICMethodBody::SetTimer);
    table.push(WIPICMethodBody::UnsetTimer);
    table.push(WIPICMethodBody::CurrentTime);
    table.push(WIPICMethodBody::GetSystemProperty);
    table.push(gen_stub(30, "MC_knlSetSystemProperty"));
    table.push(WIPICMethodBody::GetResourceId);
    table.push(WIPICMethodBody::GetResource);
    table.push(reserved1);
    table
}

} // verus!
