use wipi_kernel::{
    allocate, calloc, def_timer, free, get_kernel_method_table, get_resource,
    get_resource_id, get_system_property, gen_stub, invoke, set_timer, unset_timer, Arena,
    ResourceStore, Scheduler, WIPICContext, WIPICErrorCode, WIPICErrorKind, WIPICMemoryId,
    WIPICMethodBody,
};

fn fresh_context() -> WIPICContext {
    WIPICContext::with_parts(
        Arena::with_size(4096),
        Scheduler::with_start_time(1_000_000),
        ResourceStore::new_empty(),
    )
}

fn put_str(ctx: &mut WIPICContext, addr: u32, s: &str) {
    ctx.arena.write_bytes(addr, s.as_bytes()).unwrap();
    ctx.arena.write_bytes(addr + s.len() as u32, &[0]).unwrap();
}

fn read_str(ctx: &WIPICContext, addr: u32) -> Vec<u8> {
    ctx.arena.read_null_terminated_string(addr).unwrap()
}

#[test]
fn system_property_esn_written_terminated() {
    let mut ctx = fresh_context();
    put_str(&mut ctx, 100, "ESN");
    let r = get_system_property(&mut ctx, 100, 200, 32).unwrap();
    assert!(matches!(r, WIPICErrorCode::SUCCESS));
    assert_eq!(read_str(&ctx, 200), b"01234567891".to_vec());
    assert_eq!(ctx.arena.read_bytes(211, 1).unwrap(), vec![0u8]);
}

#[test]
fn system_property_short_buffer_writes_nothing() {
    let mut ctx = fresh_context();
    put_str(&mut ctx, 100, "ESN");
    let before = ctx.arena.read_bytes(200, 32).unwrap();
    let r = get_system_property(&mut ctx, 100, 200, 1).unwrap();
    assert!(matches!(r, WIPICErrorCode::SHORTBUF));
    assert_eq!(ctx.arena.read_bytes(200, 32).unwrap(), before);
}

#[test]
fn system_property_unknown_name_invalid() {
    let mut ctx = fresh_context();
    put_str(&mut ctx, 100, "UNKNOWNPROP");
    let before = ctx.arena.read_bytes(200, 32).unwrap();
    let r = get_system_property(&mut ctx, 100, 200, 32).unwrap();
    assert!(matches!(r, WIPICErrorCode::INVALID));
    assert_eq!(ctx.arena.read_bytes(200, 32).unwrap(), before);
}

#[test]
fn system_property_keyrepeat_not_supported() {
    let mut ctx = fresh_context();
    put_str(&mut ctx, 100, "KEYREPEAT");
    let r = get_system_property(&mut ctx, 100, 200, 64).unwrap();
    assert!(matches!(r, WIPICErrorCode::NOTSUP));
}

#[test]
fn system_property_other_values() {
    let mut ctx = fresh_context();
    for (name, value) in [
        ("NID", "65535"),
        ("SID", "2236"),
        ("BASEID", ""),
        ("PHONENUMBER", "01612345678"),
        ("MEDIADEVICES", "audio/MP3"),
        ("TIMEZONE", "GMT+09:00"),
        ("PHONEMODEL", "wie"),
        ("ANNUN_ALARM", "0"),
        ("VOLUMELEVEL", "100"),
    ] {
        put_str(&mut ctx, 100, name);
        let r = get_system_property(&mut ctx, 100, 300, 64).unwrap();
        assert!(matches!(r, WIPICErrorCode::SUCCESS), "{name}");
        assert_eq!(read_str(&ctx, 300), value.as_bytes().to_vec(), "{name}");
    }
}

#[test]
fn system_property_unterminated_name_fatal() {
    let mut ctx = WIPICContext::with_parts(
        Arena::with_size(16),
        Scheduler::with_start_time(0),
        ResourceStore::new_empty(),
    );
    ctx.arena.write_bytes(0, &[7u8; 16]).unwrap();
    let r = get_system_property(&mut ctx, 3, 0, 8);
    assert_eq!(r.unwrap_err(), WIPICErrorKind::UnterminatedString);
}

#[test]
fn calloc_yields_zeroed_buffer() {
    let mut ctx = fresh_context();
    // Scribble over the bytes the next allocation will occupy.
    ctx.arena.write_bytes(0, &[0xau8; 16]).unwrap();
    let handle = calloc(&mut ctx, 16).unwrap();
    let addr = ctx.arena.data_ptr(handle).unwrap();
    assert_eq!(ctx.arena.read_bytes(addr, 16).unwrap(), vec![0u8; 16]);
}

#[test]
fn released_handle_is_rejected() {
    let mut ctx = fresh_context();
    let handle = allocate(&mut ctx, 8).unwrap();
    assert!(ctx.arena.data_ptr(handle).is_ok());
    let back = free(&mut ctx, handle).unwrap();
    assert_eq!(back, handle);
    assert_eq!(
        ctx.arena.data_ptr(handle).unwrap_err(),
        WIPICErrorKind::InvalidMemoryId
    );
    assert_eq!(
        free(&mut ctx, handle).unwrap_err(),
        WIPICErrorKind::InvalidMemoryId
    );
}

#[test]
fn allocation_failure_is_out_of_memory() {
    let mut ctx = WIPICContext::with_parts(
        Arena::with_size(8),
        Scheduler::with_start_time(0),
        ResourceStore::new_empty(),
    );
    assert_eq!(
        allocate(&mut ctx, 16).unwrap_err(),
        WIPICErrorKind::OutOfMemory
    );
    assert!(allocate(&mut ctx, 8).is_ok());
}

#[test]
fn resource_id_ignores_leading_separator() {
    let mut ctx = fresh_context();
    ctx.resources.add(b"icons/a.png".to_vec(), vec![1, 2, 3]);
    let with_slash = get_resource_id(&mut ctx, b"/icons/a.png", 500).unwrap();
    let without = get_resource_id(&mut ctx, b"icons/a.png", 500).unwrap();
    assert_eq!(with_slash, 0);
    assert_eq!(with_slash, without);
    // The resource's byte length was written at the size pointer.
    assert_eq!(ctx.arena.read_bytes(500, 4).unwrap(), vec![3, 0, 0, 0]);
}

#[test]
fn resource_id_unknown_name_is_sentinel() {
    let mut ctx = fresh_context();
    let before = ctx.arena.read_bytes(500, 4).unwrap();
    assert_eq!(get_resource_id(&mut ctx, b"missing", 500).unwrap(), -1);
    assert_eq!(ctx.arena.read_bytes(500, 4).unwrap(), before);
}

#[test]
fn read_resource_short_buffer_is_sentinel_and_writes_nothing() {
    let mut ctx = fresh_context();
    ctx.resources.add(b"blob".to_vec(), vec![9, 8, 7, 6]);
    let buf = allocate(&mut ctx, 2).unwrap();
    let addr = ctx.arena.data_ptr(buf).unwrap();
    let before = ctx.arena.read_bytes(addr, 2).unwrap();
    assert_eq!(get_resource(&mut ctx, 0, buf, 2).unwrap(), -1);
    assert_eq!(ctx.arena.read_bytes(addr, 2).unwrap(), before);
}

#[test]
fn read_resource_copies_bytes() {
    let mut ctx = fresh_context();
    ctx.resources.add(b"blob".to_vec(), vec![9, 8, 7, 6]);
    let buf = allocate(&mut ctx, 4).unwrap();
    let addr = ctx.arena.data_ptr(buf).unwrap();
    assert_eq!(get_resource(&mut ctx, 0, buf, 4).unwrap(), 0);
    assert_eq!(ctx.arena.read_bytes(addr, 4).unwrap(), vec![9, 8, 7, 6]);
}

#[test]
fn read_resource_unknown_id_fatal() {
    let mut ctx = fresh_context();
    let buf = allocate(&mut ctx, 4).unwrap();
    assert_eq!(
        get_resource(&mut ctx, 5, buf, 4).unwrap_err(),
        WIPICErrorKind::UnknownResourceId
    );
}

#[test]
fn def_timer_writes_zeroed_record_with_callback() {
    let mut ctx = fresh_context();
    def_timer(&mut ctx, 64, 0x12345678).unwrap();
    let record = ctx.arena.read_bytes(64, 32).unwrap();
    assert_eq!(&record[0..28], &[0u8; 28]);
    assert_eq!(&record[28..32], &[0x78, 0x56, 0x34, 0x12]);
}

#[test]
fn set_timer_fires_once_with_param_after_delay() {
    let mut ctx = fresh_context();
    def_timer(&mut ctx, 64, 0xcafe0000).unwrap();
    set_timer(&mut ctx, 64, 500, 0, 0x42).unwrap();
    let fired = ctx.scheduler.pop_due().unwrap();
    assert_eq!(fired.callback, 0xcafe0000);
    assert_eq!(fired.param, 0x42);
    assert_eq!(fired.fire_at, 1_000_500);
    assert!(ctx.scheduler.now >= 1_000_500);
    assert!(ctx.scheduler.pop_due().is_none());
}

#[test]
fn set_timer_combines_timeout_halves() {
    let mut ctx = fresh_context();
    def_timer(&mut ctx, 64, 1).unwrap();
    set_timer(&mut ctx, 64, 5, 1, 0).unwrap();
    let fired = ctx.scheduler.pop_due().unwrap();
    assert_eq!(fired.fire_at, 1_000_000 + ((1u64 << 32) | 5));
}

#[test]
fn timers_fire_in_delay_order_regardless_of_arming_order() {
    let mut ctx = fresh_context();
    def_timer(&mut ctx, 64, 0xaaaa0000).unwrap();
    def_timer(&mut ctx, 128, 0xbbbb0000).unwrap();
    // The longer delay is armed first; the shorter one must still fire first.
    set_timer(&mut ctx, 64, 900, 0, 2).unwrap();
    set_timer(&mut ctx, 128, 300, 0, 1).unwrap();
    let first = ctx.scheduler.pop_due().unwrap();
    let second = ctx.scheduler.pop_due().unwrap();
    assert_eq!(first.callback, 0xbbbb0000);
    assert_eq!(first.param, 1);
    assert_eq!(second.callback, 0xaaaa0000);
    assert_eq!(second.param, 2);
    assert!(first.fire_at <= second.fire_at);
}

#[test]
fn unset_timer_is_a_successful_no_op() {
    let mut ctx = fresh_context();
    def_timer(&mut ctx, 64, 1).unwrap();
    set_timer(&mut ctx, 64, 100, 0, 0).unwrap();
    unset_timer(&mut ctx, 64).unwrap();
    // The armed timer still fires: cancellation is advisory only.
    assert!(ctx.scheduler.pop_due().is_some());
}

#[test]
fn kernel_table_has_fixed_ordinal_layout() {
    let table = get_kernel_method_table(gen_stub(33, "MC_knlReserved1"));
    assert_eq!(table.len(), 34);
    assert!(matches!(table[0], WIPICMethodBody::Printk));
    assert!(matches!(
        table[1],
        WIPICMethodBody::Stub { ordinal: 1, name: "MC_knlSprintk" }
    ));
    assert!(matches!(table[20], WIPICMethodBody::Alloc));
    assert!(matches!(table[21], WIPICMethodBody::Calloc));
    assert!(matches!(table[22], WIPICMethodBody::Free));
    assert!(matches!(table[25], WIPICMethodBody::DefTimer));
    assert!(matches!(table[26], WIPICMethodBody::SetTimer));
    assert!(matches!(table[27], WIPICMethodBody::UnsetTimer));
    assert!(matches!(table[28], WIPICMethodBody::CurrentTime));
    assert!(matches!(table[29], WIPICMethodBody::GetSystemProperty));
    assert!(matches!(
        table[30],
        WIPICMethodBody::Stub { ordinal: 30, name: "MC_knlSetSystemProperty" }
    ));
    assert!(matches!(table[31], WIPICMethodBody::GetResourceId));
    assert!(matches!(table[32], WIPICMethodBody::GetResource));
    assert!(matches!(
        table[33],
        WIPICMethodBody::Stub { ordinal: 33, name: "MC_knlReserved1" }
    ));
}

#[test]
fn unimplemented_ordinal_fails_fatally_with_diagnostics() {
    let mut ctx = fresh_context();
    let table = get_kernel_method_table(gen_stub(33, "MC_knlReserved1"));
    let e = invoke(&mut ctx, &table[1], 1, &[10, 20]).unwrap_err();
    assert_eq!(e.kind, WIPICErrorKind::UnimplementedOrdinal);
    assert_eq!(e.ordinal, 1);
    assert_eq!(e.op, "MC_knlSprintk");
    assert_eq!(e.args, vec![10, 20]);
}

#[test]
fn invoke_marshals_words_in_and_out() {
    let mut ctx = fresh_context();
    let table = get_kernel_method_table(gen_stub(33, "MC_knlReserved1"));
    // Ordinal 20: allocate; the first handle is 0.
    assert_eq!(invoke(&mut ctx, &table[20], 20, &[16]).unwrap(), 0);
    // Ordinal 22: free hands the handle word back.
    assert_eq!(invoke(&mut ctx, &table[22], 22, &[0]).unwrap(), 0);
    // Ordinal 28: the clock, truncated to a word.
    assert_eq!(invoke(&mut ctx, &table[28], 28, &[]).unwrap(), 1_000_000);
    // Ordinal 23: the simulated total memory size.
    assert_eq!(invoke(&mut ctx, &table[23], 23, &[]).unwrap(), 0x100000);
    // Ordinal 0: the logging stub returns zero.
    assert_eq!(invoke(&mut ctx, &table[0], 0, &[77]).unwrap(), 0);
    // Ordinal 27: the cancellation no-op returns zero.
    assert_eq!(invoke(&mut ctx, &table[27], 27, &[1]).unwrap(), 0);
}

#[test]
fn invoke_returns_error_codes_as_ordinary_words() {
    let mut ctx = fresh_context();
    put_str(&mut ctx, 100, "UNKNOWNPROP");
    let table = get_kernel_method_table(gen_stub(33, "MC_knlReserved1"));
    let w = invoke(&mut ctx, &table[29], 29, &[100, 200, 32]).unwrap();
    assert_eq!(w as i32, -9);
    put_str(&mut ctx, 100, "ESN");
    let w = invoke(&mut ctx, &table[29], 29, &[100, 200, 32]).unwrap();
    assert_eq!(w, 0);
    assert_eq!(read_str(&ctx, 200), b"01234567891".to_vec());
}

#[test]
fn invoke_resource_lookup_encodes_sentinel() {
    let mut ctx = fresh_context();
    put_str(&mut ctx, 100, "missing");
    let table = get_kernel_method_table(gen_stub(33, "MC_knlReserved1"));
    let w = invoke(&mut ctx, &table[31], 31, &[100, 500]).unwrap();
    assert_eq!(w as i32, -1);
}

#[test]
fn invoke_out_of_memory_is_fatal_with_raw_args() {
    let mut ctx = WIPICContext::with_parts(
        Arena::with_size(8),
        Scheduler::with_start_time(0),
        ResourceStore::new_empty(),
    );
    let table = get_kernel_method_table(gen_stub(33, "MC_knlReserved1"));
    let e = invoke(&mut ctx, &table[20], 20, &[64]).unwrap_err();
    assert_eq!(e.kind, WIPICErrorKind::OutOfMemory);
    assert_eq!(e.op, "MC_knlAlloc");
    assert_eq!(e.ordinal, 20);
    assert_eq!(e.args, vec![64]);
}

#[test]
fn arena_rejects_out_of_bounds_access() {
    let mut ctx = WIPICContext::with_parts(
        Arena::with_size(8),
        Scheduler::with_start_time(0),
        ResourceStore::new_empty(),
    );
    assert_eq!(
        ctx.arena.write_bytes(6, &[1, 2, 3]).unwrap_err(),
        WIPICErrorKind::InvalidAddress
    );
    assert_eq!(
        ctx.arena.read_bytes(6, 3).unwrap_err(),
        WIPICErrorKind::InvalidAddress
    );
    assert_eq!(
        def_timer(&mut ctx, 0, 1).unwrap_err(),
        WIPICErrorKind::InvalidAddress
    );
    assert_eq!(
        set_timer(&mut ctx, 0, 1, 0, 0).unwrap_err(),
        WIPICErrorKind::InvalidAddress
    );
}

#[test]
fn set_timer_overflowing_clock_fatal() {
    let mut ctx = WIPICContext::with_parts(
        Arena::with_size(64),
        Scheduler::with_start_time(u64::MAX - 1),
        ResourceStore::new_empty(),
    );
    def_timer(&mut ctx, 0, 1).unwrap();
    assert_eq!(
        set_timer(&mut ctx, 0, 5, 0, 0).unwrap_err(),
        WIPICErrorKind::ClockOverflow
    );
}

#[test]
fn released_buffer_rejected_by_read_resource() {
    let mut ctx = fresh_context();
    ctx.resources.add(b"blob".to_vec(), vec![1]);
    let buf = allocate(&mut ctx, 1).unwrap();
    free(&mut ctx, buf).unwrap();
    assert_eq!(
        get_resource(&mut ctx, 0, buf, 1).unwrap_err(),
        WIPICErrorKind::InvalidMemoryId
    );
}

#[test]
fn freed_memory_id_is_not_reused() {
    let mut ctx = fresh_context();
    let a = allocate(&mut ctx, 4).unwrap();
    free(&mut ctx, a).unwrap();
    let b = allocate(&mut ctx, 4).unwrap();
    assert_ne!(a, b);
    assert_eq!(b, WIPICMemoryId(1));
}
