use lldb::{
    SBAttachInfo, SBBlock, SBEvent, SBFrame, SBLaunchInfo, SBProcessInfo, SBStream,
    SBStructuredData, SBTarget, SBThread, SBValue, SBWatchpoint, StructuredDataType,
    VariableSelection, SBMemoryRegionInfoList,
};
use lldb::text::read_text;

#[test]
fn block_call_site() {
    let block = SBBlock::wrap(());
    assert_eq!(block.inlined_call_site_line(0), None);
    assert_eq!(block.inlined_call_site_line(42), Some(42));
    assert_eq!(block.inlined_call_site_column(0), None);
    assert_eq!(block.inlined_call_site_column(7), Some(7));
}

#[test]
fn frame_cfa_and_parent() {
    let frame = SBFrame::wrap(());
    assert_eq!(frame.cfa(u64::MAX), None);
    assert_eq!(frame.cfa(0x7fff_0000), Some(0x7fff_0000));
    assert_eq!(frame.parent_frame_index(0, 3), Some(1));
    assert_eq!(frame.parent_frame_index(1, 3), Some(2));
    assert_eq!(frame.parent_frame_index(2, 3), None);
    assert_eq!(frame.parent_frame_index(0, 0), None);
    assert_eq!(frame.parent_frame_index(u32::MAX, u32::MAX), None);
    assert_eq!(frame.parent_frame_index(u32::MAX - 1, u32::MAX), None);
    assert_eq!(frame.parent_frame_index(u32::MAX - 2, u32::MAX), Some(u32::MAX - 1));
}

#[test]
fn value_load_address() {
    let value = SBValue::wrap(());
    assert_eq!(value.load_address(u64::MAX), None);
    assert_eq!(value.load_address(0x1000), Some(0x1000));
    let mut children = value.children();
    assert_eq!(children.next_index(1u32), Some(0u32));
    assert_eq!(children.next_index(1u32), None);
}

#[test]
fn watchpoint_hardware_index() {
    let w = SBWatchpoint::wrap(());
    assert_eq!(w.hardware_index(-1), None);
    assert_eq!(w.hardware_index(0), Some(0));
    assert_eq!(w.hardware_index(3), Some(3));
}

#[test]
fn ids_present_only_when_valid() {
    let attach = SBAttachInfo::wrap(());
    assert_eq!(attach.user_id(true, 501), Some(501));
    assert_eq!(attach.user_id(false, 501), None);
    assert_eq!(attach.parent_process_id(true, 1), Some(1u64));
    assert_eq!(attach.effective_group_id(false, 20), None);
    let launch = SBLaunchInfo::wrap(());
    assert_eq!(launch.group_id(true, 20), Some(20));
    assert_eq!(launch.group_id(false, 20), None);
    let info = SBProcessInfo::wrap(());
    assert_eq!(info.effective_user_id(true, 0), Some(0));
    assert_eq!(info.effective_user_id(false, 0), None);
    let mut args = launch.arguments();
    assert_eq!(args.next_index(2u32), Some(0u32));
    assert_eq!(args.size_hint(2u32), Some((1, Some(1))));
}

#[test]
fn structured_data_values() {
    let d = SBStructuredData::wrap(());
    assert_eq!(d.integer_value(StructuredDataType::Integer, 5), Some(5));
    assert_eq!(d.integer_value(StructuredDataType::String, 5), None);
    assert_eq!(d.boolean_value(StructuredDataType::Boolean, true), Some(true));
    assert_eq!(d.boolean_value(StructuredDataType::Null, true), None);
    assert_eq!(d.string_value(StructuredDataType::String, b"name"), Some("name".to_string()));
    assert_eq!(d.string_value(StructuredDataType::String, &[0xff]), None);
    assert_eq!(d.string_value(StructuredDataType::Array, b"name"), None);
}

#[test]
fn stream_emptiness() {
    let s = SBStream::wrap(());
    assert!(s.is_empty(0));
    assert!(!s.is_empty(1));
}

#[test]
fn target_and_thread_events() {
    let event = SBEvent::wrap(5u8);
    assert!(SBTarget::event_as_target_event(&event, false).is_none());
    let te = SBTarget::event_as_target_event(&event, true).unwrap();
    assert_eq!(te.event().raw, 5);
    let mut modules = te.modules();
    assert_eq!(modules.next_index(2), Some(0));
    assert_eq!(modules.next_index(2), Some(1));
    assert_eq!(modules.next_index(2), None);
    let th = SBThread::event_as_thread_event(&event, true).unwrap();
    assert_eq!(th.event().raw, 5);
    assert!(SBThread::event_as_thread_event(&event, false).is_none());
}

#[test]
fn target_breakpoints_and_watchpoints() {
    let target = SBTarget::wrap(());
    let mut bps = target.breakpoints();
    assert_eq!(bps.next_index(1), Some(0));
    assert_eq!(bps.next_index(1), None);
    let mut wps = target.watchpoints();
    assert_eq!(wps.next_index(0), None);
    let thread = SBThread::wrap(());
    let mut frames = thread.frames();
    assert_eq!(frames.size_hint(2), Some((2, Some(2))));
}

#[test]
fn frame_variable_selections() {
    let frame = SBFrame::wrap(3u32);
    let all = VariableSelection {
        include_arguments: true,
        include_locals: true,
        include_statics: true,
        in_scope_only: true,
    };
    assert_eq!(frame.all_variables(), all);
    assert_eq!(
        frame.arguments(),
        VariableSelection {
            include_arguments: true,
            include_locals: false,
            include_statics: false,
            in_scope_only: false,
        }
    );
    assert_eq!(
        frame.locals(),
        VariableSelection {
            include_arguments: false,
            include_locals: true,
            include_statics: false,
            in_scope_only: false,
        }
    );
    assert_eq!(
        frame.statics(),
        VariableSelection {
            include_arguments: false,
            include_locals: false,
            include_statics: true,
            in_scope_only: false,
        }
    );
}

#[test]
fn reading_lldb_strings() {
    assert_eq!(read_text(None), None);
    assert_eq!(read_text(Some(&b"main"[..])), Some("main"));
    assert_eq!(read_text(Some(&b""[..])), Some(""));
    assert_eq!(read_text(Some("r\u{e9}sum\u{e9}".as_bytes())), Some("r\u{e9}sum\u{e9}"));
    assert_eq!(read_text(Some(&[0x66u8, 0xff, 0x6f][..])), None);
    assert_eq!(read_text(Some(&[0xe2u8, 0x82][..])), None);
}

#[test]
fn memory_region_walk_yields_filled_regions() {
    let list = SBMemoryRegionInfoList::wrap(());
    let mut regions = list.iter();
    assert_eq!(regions.next_index(2u32), Some(0u32));
    assert_eq!(regions.fetched_region("region 0", true), Some("region 0"));
    assert_eq!(regions.next_index(2u32), Some(1u32));
    assert_eq!(regions.fetched_region("region 1", false), None);
    assert_eq!(regions.next_index(2u32), None);
    assert_eq!(regions.size_hint(2u32), Some((0, Some(0))));
}

#[test]
fn structured_string_buffer() {
    let data = SBStructuredData::wrap(());
    assert_eq!(data.string_buffer_size(5), Some(6));
    assert_eq!(data.string_buffer_size(usize::MAX), None);
    let filled = b"hello\0";
    let bytes = data.string_bytes(filled, 5);
    assert_eq!(bytes, b"hello");
    assert_eq!(
        data.string_value(StructuredDataType::String, bytes),
        Some("hello".to_string())
    );
    assert_eq!(data.string_bytes(b"hi", 5), b"hi");
}
