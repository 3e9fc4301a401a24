//! The kernel service group: memory, timers, resources, system properties
//! and clock, implemented against the guest memory arena, the timer
//! scheduler and the resource store. Each operation returns either its typed
//! value or a fatal failure kind; guest-visible error codes are ordinary
//! successful results.

use vstd::prelude::*;

use crate::arena::{has_nul, splice, str_at, valid_range, Arena};
use crate::base::{WIPICErrorKind, WIPICMemoryId, WIPICWord};
use crate::codec::{bytes_eq, le32_bytes};
use crate::error::WIPICErrorCode;
use crate::resources::{id_lookup, normalized_name, ResourceStore, PATH_SEPARATOR};
use crate::scheduler::{PendingTimer, Scheduler};
use crate::timer::{
    read_timer, timer_bytes, timer_of_bytes, write_timer, WIPICTimer, TIMER_RECORD_SIZE,
};
use crate::utf8_util::{ascii_bytes, lit_bytes};

verus! {

/// The capability context handed to every kernel operation: the guest
/// memory arena, the cooperative timer scheduler, and the read-only
/// resource store. Exactly one exclusive reference to it is live at any
/// instant; all mutation is funneled through it.
pub struct WIPICContext {
    /// Guest memory and its allocation table.
    pub arena: Arena,
    /// The clock and the armed timer tasks.
    pub scheduler: Scheduler,
    /// The bundled assets of the running application.
    pub resources: ResourceStore,
}

impl WIPICContext {
    /// Structural invariant of all three capabilities.
    pub open spec fn wf(self) -> bool {
        self.arena.wf() && self.resources.wf()
    }

    /// Assembles a context from its three capabilities.
    pub fn with_parts(arena: Arena, scheduler: Scheduler, resources: ResourceStore) -> (r:
        WIPICContext)
        ensures
            r.arena == arena,
            r.scheduler == scheduler,
            r.resources == resources,
    {
        WIPICContext { arena, scheduler, resources }
    }
}

/// Fixed simulated value of the hardware memory size reported to the guest.
pub const SIMULATED_MEMORY_SIZE: i32 = 0x100000;

/// Outcome of looking a name up in the fixed system property table.
pub enum PropertyLookup {
    /// A property with this simulated string value.
    Value(Seq<u8>),
    /// A property explicitly unsupported by design.
    NotSupported,
    /// Not a recognized property name.
    Unknown,
}

/// The fixed table of named system properties: hardware identifiers,
/// locale/timezone, signal/battery levels and device metadata, some of them
/// intentionally hardcoded simulated values.
pub open spec fn property_lookup(name: Seq<u8>) -> PropertyLookup {
    if name == ascii_bytes("ESN"@) {
        PropertyLookup::Value(ascii_bytes("01234567891"@))
    } else if name == ascii_bytes("NID"@) {
        PropertyLookup::Value(ascii_bytes("65535"@))
    } else if name == ascii_bytes("SID"@) {
        PropertyLookup::Value(ascii_bytes("2236"@))
    } else if name == ascii_bytes("BASEID"@) {
        PropertyLookup::Value(ascii_bytes(""@))
    } else if name == ascii_bytes("BASELAT"@) {
        PropertyLookup::Value(ascii_bytes("37.358794639155875"@))
    } else if name == ascii_bytes("BASELONG"@) {
        PropertyLookup::Value(ascii_bytes("127.11491625337496"@))
    } else if name == ascii_bytes("CURRENTCH"@) {
        PropertyLookup::Value(ascii_bytes("779"@))
    } else if name == ascii_bytes("PHONENUMBER"@) {
        PropertyLookup::Value(ascii_bytes("01612345678"@))
    } else if name == ascii_bytes("RSSILEVEL"@) {
        PropertyLookup::Value(ascii_bytes("5"@))
    } else if name == ascii_bytes("MAXRSSILEVEL"@) {
        PropertyLookup::Value(ascii_bytes("5"@))
    } else if name == ascii_bytes("BATTERYLEVEL"@) {
        PropertyLookup::Value(ascii_bytes("5"@))
    } else if name == ascii_bytes("MAXBATTLEVEL"@) {
        PropertyLookup::Value(ascii_bytes("5"@))
    } else if name == ascii_bytes("MAXSERIALNUM"@) {
        PropertyLookup::Value(ascii_bytes("0"@))
    } else if name == ascii_bytes("MAXSOCKETNUM"@) {
        PropertyLookup::Value(ascii_bytes("64"@))
    } else if name == ascii_bytes("MEDIADEVICES"@) {
        PropertyLookup::Value(ascii_bytes("audio/MP3"@))
    } else if name == ascii_bytes("DNS"@) {
        PropertyLookup::Value(ascii_bytes("127.0.0.1"@))
    } else if name == ascii_bytes("TIMEZONE"@) {
        PropertyLookup::Value(ascii_bytes("GMT+09:00"@))
    } else if name == ascii_bytes("PHONEMODEL"@) {
        PropertyLookup::Value(ascii_bytes("wie"@))
    } else if name == ascii_bytes("KEYREPEAT"@) {
        PropertyLookup::NotSupported
    } else if name == ascii_bytes("VIBRATORLEVEL"@) {
        PropertyLookup::Value(ascii_bytes("100"@))
    } else if name == ascii_bytes("VOLUMELEVEL"@) {
        PropertyLookup::Value(ascii_bytes("100"@))
    } else if name == ascii_bytes("ANNUN_CALL"@) || name == ascii_bytes("ANNUN_SMS"@) || name
        == ascii_bytes("ANNUN_SILENT"@) || name == ascii_bytes("ANNUN_ALARM"@) || name
        == ascii_bytes("ANNUN_SECURITY"@) {
        PropertyLookup::Value(ascii_bytes("0"@))
    } else {
        PropertyLookup::Unknown
    }
}

/// Reads the backend clock, truncated to a word.
pub fn current_time(context: &WIPICContext) -> (r: WIPICWord)
    ensures
        r == context.scheduler.now as u32,
{
    context.scheduler.now as u32
}

/// Looks up the system property named by the terminated string at `p_id`.
/// Writes the terminated value at `p_out` and returns `SUCCESS`; returns
/// `SHORTBUF` without writing where the value and terminator exceed
/// `buf_size`, `NOTSUP` for a property unsupported by design, and `INVALID`
/// for an unrecognized name. Fails fatally on an unterminated name or an
/// out-of-bounds destination.
pub fn get_system_property(
    context: &mut WIPICContext,
    p_id: WIPICWord,
    p_out: WIPICWord,
    buf_size: WIPICWord,
) -> (r: Result<WIPICErrorCode, WIPICErrorKind>)
    requires
        old(context).wf(),
    ensures
        final(context).wf(),
        final(context).arena.allocs@ == old(context).arena.allocs@,
        final(context).arena.next == old(context).arena.next,
        final(context).scheduler == old(context).scheduler,
        final(context).resources == old(context).resources,
        ({
            let mem0 = old(context).arena.mem@;
            let mem1 = final(context).arena.mem@;
            if !has_nul(mem0, p_id as int) {
                r == Err::<WIPICErrorCode, WIPICErrorKind>(WIPICErrorKind::UnterminatedString)
                    && mem1 == mem0
            } else {
                match property_lookup(str_at(mem0, p_id as int)) {
                    PropertyLookup::Unknown => r == Ok::<WIPICErrorCode, WIPICErrorKind>(
                        WIPICErrorCode::INVALID,
                    ) && mem1 == mem0,
                    PropertyLookup::NotSupported => r == Ok::<WIPICErrorCode, WIPICErrorKind>(
                        WIPICErrorCode::NOTSUP,
                    ) && mem1 == mem0,
                    PropertyLookup::Value(v) => {
                        if buf_size < v.len() + 1 {
                            r == Ok::<WIPICErrorCode, WIPICErrorKind>(WIPICErrorCode::SHORTBUF)
                                && mem1 == mem0
                        } else if p_out + v.len() + 1 <= mem0.len() {
                            r == Ok::<WIPICErrorCode, WIPICErrorKind>(WIPICErrorCode::SUCCESS)
                                && mem1 == splice(mem0, p_out as int, v + seq![0u8])
                        } else {
                            r == Err::<WIPICErrorCode, WIPICErrorKind>(
                                WIPICErrorKind::InvalidAddress,
                            ) && mem1 == mem0
                        }
                    },
                }
            }
        }),
{
    proof {
        reveal_strlit("ESN");
        reveal_strlit("01234567891");
        reveal_strlit("NID");
        reveal_strlit("65535");
        reveal_strlit("SID");
        reveal_strlit("2236");
        reveal_strlit("BASEID");
        reveal_strlit("");
        reveal_strlit("BASELAT");
        reveal_strlit("37.358794639155875");
        reveal_strlit("BASELONG");
        reveal_strlit("127.11491625337496");
        reveal_strlit("CURRENTCH");
        reveal_strlit("779");
        reveal_strlit("PHONENUMBER");
        reveal_strlit("01612345678");
        reveal_strlit("RSSILEVEL");
        reveal_strlit("MAXRSSILEVEL");
        reveal_strlit("BATTERYLEVEL");
        reveal_strlit("MAXBATTLEVEL");
        reveal_strlit("5");
        reveal_strlit("MAXSERIALNUM");
        reveal_strlit("0");
        reveal_strlit("MAXSOCKETNUM");
        reveal_strlit("64");
        reveal_strlit("MEDIADEVICES");
        reveal_strlit("audio/MP3");
        reveal_strlit("DNS");
        reveal_strlit("127.0.0.1");
        reveal_strlit("TIMEZONE");
        reveal_strlit("GMT+09:00");
        reveal_strlit("PHONEMODEL");
        reveal_strlit("wie");
        reveal_strlit("KEYREPEAT");
        reveal_strlit("VIBRATORLEVEL");
        reveal_strlit("VOLUMELEVEL");
        reveal_strlit("100");
        reveal_strlit("ANNUN_CALL");
        reveal_strlit("ANNUN_SMS");
        reveal_strlit("ANNUN_SILENT");
        reveal_strlit("ANNUN_ALARM");
        reveal_strlit("ANNUN_SECURITY");
    }
    let name = match context.arena.read_null_terminated_string(p_id) {
        Ok(n) => n,
        Err(k) => {
            return Err(k);
        },
    };
    let s = name.as_slice();
    let value: &[u8];
    if bytes_eq(s, lit_bytes("ESN")) {
        value = lit_bytes("01234567891");
    } else if bytes_eq(s, lit_bytes("NID")) {
        value = lit_bytes("65535");
    } else if bytes_eq(s, lit_bytes("SID")) {
        value = lit_bytes("2236");
    } else if bytes_eq(s, lit_bytes("BASEID")) {
        value = lit_bytes("");
    } else if bytes_eq(s, lit_bytes("BASELAT")) {
        value = lit_bytes("37.358794639155875");
    } else if bytes_eq(s, lit_bytes("BASELONG")) {
        value = lit_bytes("127.11491625337496");
    } else if bytes_eq(s, lit_bytes("CURRENTCH")) {
        value = lit_bytes("779");
    } else if bytes_eq(s, lit_bytes("PHONENUMBER")) {
        value = lit_bytes("01612345678");
    } else if bytes_eq(s, lit_bytes("RSSILEVEL")) {
        value = lit_bytes("5");
    } else if bytes_eq(s, lit_bytes("MAXRSSILEVEL")) {
        value = lit_bytes("5");
    } else if bytes_eq(s, lit_bytes("BATTERYLEVEL")) {
        value = lit_bytes("5");
    } else if bytes_eq(s, lit_bytes("MAXBATTLEVEL")) {
        value = lit_bytes("5");
    } else if bytes_eq(s, lit_bytes("MAXSERIALNUM")) {
        value = lit_bytes("0");
    } else if bytes_eq(s, lit_bytes("MAXSOCKETNUM")) {
        value = lit_bytes("64");
    } else if bytes_eq(s, lit_bytes("MEDIADEVICES")) {
        value = lit_bytes("audio/MP3");
    } else if bytes_eq(s, lit_bytes("DNS")) {
        value = lit_bytes("127.0.0.1");
    } else if bytes_eq(s, lit_bytes("TIMEZONE")) {
        value = lit_bytes("GMT+09:00");
    } else if bytes_eq(s, lit_bytes("PHONEMODEL")) {
        value = lit_bytes("wie");
    } else if bytes_eq(s, lit_bytes("KEYREPEAT")) {
        return Ok(WIPICErrorCode::NOTSUP);
    } else if bytes_eq(s, lit_bytes("VIBRATORLEVEL")) {
        value = lit_bytes("100");
    } else if bytes_eq(s, lit_bytes("VOLUMELEVEL")) {
        value = lit_bytes("100");
    } else if bytes_eq(s, lit_bytes("ANNUN_CALL")) || bytes_eq(s, lit_bytes("ANNUN_SMS"))
        || bytes_eq(s, lit_bytes("ANNUN_SILENT")) || bytes_eq(s, lit_bytes("ANNUN_ALARM"))
        || bytes_eq(s, lit_bytes("ANNUN_SECURITY")) {
        value = lit_bytes("0");
    } else {
        return Ok(WIPICErrorCode::INVALID);
    }
    if (buf_size as usize) <= value.len() {
        return Ok(WIPICErrorCode::SHORTBUF);
    }
    match context.arena.write_null_terminated_string(p_out, value) {
        Ok(()) => Ok(WIPICErrorCode::SUCCESS),
        Err(k) => Err(k),
    }
}

/// Writes a freshly zeroed timer record carrying the given callback word to
/// guest memory at `ptr_timer`; arms nothing.
pub fn def_timer(context: &mut WIPICContext, ptr_timer: WIPICWord, fn_callback: WIPICWord) -> (r:
    Result<(), WIPICErrorKind>)
    requires
        old(context).wf(),
    ensures
        final(context).wf(),
        final(context).arena.allocs@ == old(context).arena.allocs@,
        final(context).arena.next == old(context).arena.next,
        final(context).scheduler == old(context).scheduler,
        final(context).resources == old(context).resources,
        r is Ok <==> valid_range(old(context).arena.mem@, ptr_timer as int, TIMER_RECORD_SIZE as int),
        match r {
            Ok(()) => final(context).arena.mem@ == splice(
                old(context).arena.mem@,
                ptr_timer as int,
                timer_bytes(
                    WIPICTimer {
                        unk1: 0,
                        unk2: 0,
                        unk3: 0,
                        time: 0,
                        param: 0,
                        unk4: 0,
                        fn_callback,
                    },
                ),
            ),
            Err(k) => {
                &&& k == WIPICErrorKind::InvalidAddress
                &&& final(context).arena.mem@ == old(context).arena.mem@
            },
        },
{
    let timer = WIPICTimer { unk1: 0, unk2: 0, unk3: 0, time: 0, param: 0, unk4: 0, fn_callback };
    write_timer(&mut context.arena, ptr_timer, &timer)
}

/// The 64-bit relative delay combined from its two half-words.
pub open spec fn combine_timeout(timeout_low: u32, timeout_high: u32) -> u64 {
    ((timeout_high as u64) << 32) | (timeout_low as u64)
}

/// Reads the timer record back from `ptr_timer`, combines the two timeout
/// half-words into a 64-bit relative delay, and arms exactly one
/// independent timer task that will fire the record's stored callback with
/// `param` once the delay has elapsed.
pub fn set_timer(
    context: &mut WIPICContext,
    ptr_timer: WIPICWord,
    timeout_low: WIPICWord,
    timeout_high: WIPICWord,
    param: WIPICWord,
) -> (r: Result<(), WIPICErrorKind>)
    requires
        old(context).wf(),
    ensures
        final(context).wf(),
        final(context).arena == old(context).arena,
        final(context).resources == old(context).resources,
        final(context).scheduler.now == old(context).scheduler.now,
        ({
            let mem0 = old(context).arena.mem@;
            let delay = combine_timeout(timeout_low, timeout_high);
            if !valid_range(mem0, ptr_timer as int, TIMER_RECORD_SIZE as int) {
                r == Err::<(), WIPICErrorKind>(WIPICErrorKind::InvalidAddress) && final(context).scheduler.pending@ == old(context).scheduler.pending@
            } else {
                let record = timer_of_bytes(
                    mem0.subrange(ptr_timer as int, ptr_timer + TIMER_RECORD_SIZE),
                );
                if old(context).scheduler.now + delay <= u64::MAX {
                    r is Ok && final(context).scheduler.pending@ == old(context).scheduler.pending@.push(
                        PendingTimer {
                            fire_at: (old(context).scheduler.now + delay) as u64,
                            callback: record.fn_callback,
                            param,
                        },
                    )
                } else {
                    r == Err::<(), WIPICErrorKind>(WIPICErrorKind::ClockOverflow) && final(context).scheduler.pending@ == old(context).scheduler.pending@
                }
            }
        }),
{
    let record = match read_timer(&context.arena, ptr_timer) {
        Ok(t) => t,
        Err(k) => {
            return Err(k);
        },
    };
    let delay = ((timeout_high as u64) << 32) | (timeout_low as u64);
    context.scheduler.spawn_timer(delay, record.fn_callback, param)
}

/// Accepted and always succeeds with no effect: once armed, a timer cannot
/// be withdrawn; the no-op is deliberate protocol policy, not a gap.
pub fn unset_timer(context: &mut WIPICContext, a0: WIPICWord) -> (r: Result<(), WIPICErrorKind>)
    ensures
        *final(context) == *old(context),
        r == Ok::<(), WIPICErrorKind>(()),
{
    let _ = a0;
    Ok(())
}

/// Allocates `size` bytes of guest memory and returns the fresh handle.
pub fn allocate(context: &mut WIPICContext, size: WIPICWord) -> (r: Result<
    WIPICMemoryId,
    WIPICErrorKind,
>)
    requires
        old(context).wf(),
    ensures
        final(context).wf(),
        final(context).arena.mem@ == old(context).arena.mem@,
        final(context).scheduler == old(context).scheduler,
        final(context).resources == old(context).resources,
        r is Ok <==> old(context).arena.can_alloc(size),
        match r {
            Ok(id) => {
                &&& id.0 == old(context).arena.allocs@.len()
                &&& final(context).arena.allocs@ == old(context).arena.allocs@.push(
                    crate::arena::Allocation { addr: old(context).arena.next, size, live: true },
                )
                &&& final(context).arena.next == old(context).arena.next + size
                &&& final(context).arena.valid_handle(id)
                &&& final(context).arena.handle_addr(id) == old(context).arena.next
                &&& final(context).arena.handle_size(id) == size
            },
            Err(k) => {
                &&& k == WIPICErrorKind::OutOfMemory
                &&& final(context).arena == old(context).arena
            },
        },
{
    context.arena.allocate(size)
}

/// Allocates `size` bytes and then explicitly zeroes the whole buffer, so
/// the handle's first `size` bytes are all zero.
pub fn calloc(context: &mut WIPICContext, size: WIPICWord) -> (r: Result<
    WIPICMemoryId,
    WIPICErrorKind,
>)
    requires
        old(context).wf(),
    ensures
        final(context).wf(),
        final(context).scheduler == old(context).scheduler,
        final(context).resources == old(context).resources,
        r is Ok <==> old(context).arena.can_alloc(size),
        match r {
            Ok(id) => {
                &&& id.0 == old(context).arena.allocs@.len()
                &&& final(context).arena.allocs@ == old(context).arena.allocs@.push(
                    crate::arena::Allocation { addr: old(context).arena.next, size, live: true },
                )
                &&& final(context).arena.next == old(context).arena.next + size
                &&& final(context).arena.valid_handle(id)
                &&& final(context).arena.handle_addr(id) == old(context).arena.next
                &&& final(context).arena.handle_size(id) == size
                &&& final(context).arena.mem@ == splice(
                    old(context).arena.mem@,
                    old(context).arena.next as int,
                    Seq::new(size as nat, |i: int| 0u8),
                )
                &&& forall|j: int|
                    final(context).arena.handle_addr(id) <= j < final(context).arena.handle_addr(id) + size ==> final(context).arena.mem@[j] == 0
            },
            Err(k) => {
                &&& k == WIPICErrorKind::OutOfMemory
                &&& final(context).arena == old(context).arena
            },
        },
{
    let id = match context.arena.allocate(size) {
        Ok(id) => id,
        Err(k) => {
            return Err(k);
        },
    };
    let zero = zero_bytes(size);
    let addr = match context.arena.data_ptr(id) {
        Ok(a) => a,
        Err(_) => {
            return vstd::pervasive::unreached();
        },
    };
    let wrote = context.arena.write_bytes(addr, zero.as_slice());
    assert(wrote is Ok);
    Ok(id)
}

/// Releases the allocation a handle denotes and hands the handle back.
pub fn free(context: &mut WIPICContext, memory: WIPICMemoryId) -> (r: Result<
    WIPICMemoryId,
    WIPICErrorKind,
>)
    requires
        old(context).wf(),
    ensures
        final(context).wf(),
        final(context).arena.mem@ == old(context).arena.mem@,
        final(context).arena.next == old(context).arena.next,
        final(context).scheduler == old(context).scheduler,
        final(context).resources == old(context).resources,
        r is Ok <==> old(context).arena.valid_handle(memory),
        match r {
            Ok(m) => {
                &&& m == memory
                &&& final(context).arena.allocs@ == old(context).arena.allocs@.update(
                    memory.0 as int,
                    crate::arena::Allocation {
                        live: false,
                        ..old(context).arena.allocs@[memory.0 as int]
                    },
                )
                &&& !final(context).arena.valid_handle(memory)
            },
            Err(k) => {
                &&& k == WIPICErrorKind::InvalidMemoryId
                &&& final(context).arena == old(context).arena
            },
        },
{
    match context.arena.free(memory) {
        Ok(()) => Ok(memory),
        Err(k) => Err(k),
    }
}

/// Looks a resource up by name, a single leading path separator stripped
/// first. Returns the narrow legacy sentinel `-1` without writing where the
/// name denotes nothing; otherwise writes the resource's byte length as a
/// word at `ptr_size` and returns the id.
pub fn get_resource_id(context: &mut WIPICContext, name: &[u8], ptr_size: WIPICWord) -> (r: Result<
    i32,
    WIPICErrorKind,
>)
    requires
        old(context).wf(),
    ensures
        final(context).wf(),
        final(context).arena.allocs@ == old(context).arena.allocs@,
        final(context).arena.next == old(context).arena.next,
        final(context).scheduler == old(context).scheduler,
        final(context).resources == old(context).resources,
        ({
            let mem0 = old(context).arena.mem@;
            let mem1 = final(context).arena.mem@;
            match id_lookup(old(context).resources.entries@, normalized_name(name@)) {
                None => r == Ok::<i32, WIPICErrorKind>(-1i32) && mem1 == mem0,
                Some(i) => {
                    let size = old(context).resources.entries@[i].data@.len();
                    if valid_range(mem0, ptr_size as int, 4) {
                        r == Ok::<i32, WIPICErrorKind>(i as i32) && mem1 == splice(
                            mem0,
                            ptr_size as int,
                            le32_bytes(size as u32),
                        )
                    } else {
                        r == Err::<i32, WIPICErrorKind>(WIPICErrorKind::InvalidAddress) && mem1
                            == mem0
                    }
                },
            }
        }),
{
    let normalized: &[u8] = if name.len() > 0 && name[0] == PATH_SEPARATOR {
        let stripped = vstd::slice::slice_subrange(name, 1, name.len());
        proof {
            assert(stripped@ =~= normalized_name(name@));
        }
        stripped
    } else {
        name
    };
    let id = match context.resources.id_by_name(normalized) {
        Some(id) => id,
        None => {
            return Ok(-1);
        },
    };
    proof {
        crate::resources::lemma_id_lookup_valid(
            context.resources.entries@,
            normalized_name(name@),
        );
    }
    let size = match context.resources.size_by_id(id) {
        Some(s) => s,
        None => {
            return vstd::pervasive::unreached();
        },
    };
    let mut size_image: Vec<u8> = Vec::new();
    crate::codec::push_le32(&mut size_image, size);
    match context.arena.write_bytes(ptr_size, size_image.as_slice()) {
        Ok(()) => Ok(id as i32),
        Err(k) => Err(k),
    }
}

/// Copies the resource with the given id into the guest buffer a handle
/// denotes and returns `0`. Returns the narrow legacy sentinel `-1` without
/// writing where the resource exceeds `buf_size`; fails fatally on an
/// unknown id, a dead handle, or a buffer running past the arena bounds.
pub fn get_resource(
    context: &mut WIPICContext,
    id: WIPICWord,
    buf: WIPICMemoryId,
    buf_size: WIPICWord,
) -> (r: Result<i32, WIPICErrorKind>)
    requires
        old(context).wf(),
    ensures
        final(context).wf(),
        final(context).arena.allocs@ == old(context).arena.allocs@,
        final(context).arena.next == old(context).arena.next,
        final(context).scheduler == old(context).scheduler,
        final(context).resources == old(context).resources,
        ({
            let mem0 = old(context).arena.mem@;
            let mem1 = final(context).arena.mem@;
            if id >= old(context).resources.entries@.len() {
                r == Err::<i32, WIPICErrorKind>(WIPICErrorKind::UnknownResourceId) && mem1 == mem0
            } else {
                let data = old(context).resources.entries@[id as int].data@;
                if data.len() > buf_size {
                    r == Ok::<i32, WIPICErrorKind>(-1i32) && mem1 == mem0
                } else if !old(context).arena.valid_handle(buf) {
                    r == Err::<i32, WIPICErrorKind>(WIPICErrorKind::InvalidMemoryId) && mem1
                        == mem0
                } else if valid_range(
                    mem0,
                    old(context).arena.handle_addr(buf) as int,
                    data.len() as int,
                ) {
                    r == Ok::<i32, WIPICErrorKind>(0i32) && mem1 == splice(
                        mem0,
                        old(context).arena.handle_addr(buf) as int,
                        data,
                    )
                } else {
                    r == Err::<i32, WIPICErrorKind>(WIPICErrorKind::InvalidAddress) && mem1 == mem0
                }
            }
        }),
{
    let size = match context.resources.size_by_id(id) {
        Some(s) => s,
        None => {
            return Err(WIPICErrorKind::UnknownResourceId);
        },
    };
    if size > buf_size {
        return Ok(-1);
    }
    let addr = match context.arena.data_ptr(buf) {
        Ok(a) => a,
        Err(k) => {
            return Err(k);
        },
    };
    let data = match context.resources.bytes_by_id(id) {
        Some(d) => d,
        None => {
            return vstd::pervasive::unreached();
        },
    };
    match context.arena.write_bytes(addr, data.as_slice()) {
        Ok(()) => Ok(0),
        Err(k) => Err(k),
    }
}

/// Informational logging stub: accepted, no effect.
pub fn printk(context: &mut WIPICContext, format: WIPICWord) -> (r: Result<(), WIPICErrorKind>)
    ensures
        *final(context) == *old(context),
        r == Ok::<(), WIPICErrorKind>(()),
{
    let _ = format;
    Ok(())
}

/// Informational stub reporting a fixed simulated total memory size.
pub fn get_total_memory(context: &WIPICContext) -> (r: Result<i32, WIPICErrorKind>)
    ensures
        r == Ok::<i32, WIPICErrorKind>(SIMULATED_MEMORY_SIZE),
{
    let _ = context;
    Ok(SIMULATED_MEMORY_SIZE)
}

/// Informational stub reporting a fixed simulated free memory size.
pub fn get_free_memory(context: &WIPICContext) -> (r: Result<i32, WIPICErrorKind>)
    ensures
        r == Ok::<i32, WIPICErrorKind>(SIMULATED_MEMORY_SIZE),
{
    let _ = context;
    Ok(SIMULATED_MEMORY_SIZE)
}

/// A buffer of `len` zero bytes.
fn zero_bytes(len: WIPICWord) -> (r: Vec<u8>)
    ensures
        r@ == Seq::new(len as nat, |i: int| 0u8),
{
    let mut out: Vec<u8> = Vec::new();
    let mut i: u32 = 0;
    while i < len
        invariant
            i <= len,
            out@ == Seq::new(i as nat, |j: int| 0u8),
        decreases len - i,
    {
        out.push(0);
        assert(out@ =~= Seq::new((i + 1) as nat, |j: int| 0u8));
        i = i + 1;
    }
    out
}

} // verus!
