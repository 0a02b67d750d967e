//! The platform models: status codes, memory blocks, display, modules,
//! network and HTTP state.

use cargo_vitasdk::{
    min_pitch, sce_result_uid_from_code, sce_result_unit_from_code, Display, Framebuf,
    FramebufDesc, GlobalState, KeepAlive, MemBlockOptions, MemPartition, Module, ModuleId,
    PixelFormat, Request, SceError, Template, NET_MEMORY_SIZE,
};

#[test]
fn status_codes_become_results() {
    assert_eq!(sce_result_unit_from_code(0), Ok(()));
    let e = sce_result_unit_from_code(-2147352576).unwrap_err();
    assert_eq!(e.code(), -2147352576);
    assert_eq!(sce_result_uid_from_code(42), Ok(42));
    let e = sce_result_uid_from_code(-5).unwrap_err();
    assert_eq!(e, SceError::from_raw_error(-5));
}

#[test]
fn error_codes_render_in_hex() {
    assert_eq!(cargo_vitasdk::u32_to_hex(0), "0");
    assert_eq!(cargo_vitasdk::u32_to_hex(255), "ff");
    assert_eq!(cargo_vitasdk::u32_to_hex(0x80010000), "80010000");
    let e = SceError::from_raw_error(-2147418112);
    assert_eq!(e.code_hex(), "80010000");
    let e = SceError::from_raw_error(10);
    assert_eq!(e.code_hex(), "a");
}

#[test]
fn min_pitch_rounds_up_to_64() {
    assert_eq!(min_pitch(0), 0);
    assert_eq!(min_pitch(1), 64);
    assert_eq!(min_pitch(64), 64);
    assert_eq!(min_pitch(65), 128);
    assert_eq!(min_pitch(960), 960);
}

#[test]
fn framebuf_desc_builders() {
    let d = FramebufDesc::new(480, 272);
    assert_eq!(d.pitch, 512);
    assert_eq!(d.pixel_format, PixelFormat::A8B8G8R8);
    let d = d.with_width(640).with_height(368).with_pitch(640).with_pixel_format(PixelFormat::A2B10G10R10);
    assert_eq!((d.width, d.height, d.pitch), (640, 368, 640));
    assert_eq!(d.pixel_format, PixelFormat::A2B10G10R10);
    assert_eq!(FramebufDesc::default(), FramebufDesc::native());
}

#[test]
fn bytes_needed_rounds_to_video_pages() {
    // native screen: 4 * 960 * 544 = 2088960, rounded up to 0x200000
    assert_eq!(FramebufDesc::native().bytes_needed(), 0x200000);
    // a tiny buffer still takes one whole page
    let d = FramebufDesc::new(64, 1);
    assert_eq!(d.bytes_needed(), 0x40000);
}

#[test]
fn framebuf_native_allocation() {
    let fb = Framebuf::native(7).unwrap();
    assert_eq!(fb.memblock.len(), 0x200000);
    assert!(fb.memblock.bytes().iter().all(|b| *b == 0));
    assert_eq!(fb.desc.width, 960);
    let err = Framebuf::native(-1).unwrap_err();
    assert_eq!(err.code(), -1);
}

#[test]
fn memory_blocks_track_length_partition_and_contents() {
    assert_eq!(MemPartition::Main.page_size(), 0x1000);
    assert_eq!(MemPartition::Cdram.page_size(), 0x40000);

    let raw = MemBlockOptions::from_size(8)
        .with_name("TestBlock")
        .with_memory_partition(MemPartition::Cdram)
        .alloc_mut_raw(11)
        .unwrap();
    assert_eq!(raw.len(), 8);
    assert!(!raw.is_empty());
    assert_eq!(raw.mem_partition(), MemPartition::Cdram);

    let block = MemBlockOptions::from_size(4).alloc_mut(3).unwrap();
    assert_eq!(block.len(), 4);
    let filled = block.fill_init(0xAB);
    assert_eq!(filled.bytes(), &vec![0xAB, 0xAB, 0xAB, 0xAB]);
    assert_eq!(filled.len(), 4);
    assert_eq!(filled.mem_partition(), MemPartition::Main);

    let block = MemBlockOptions::from_size(3).alloc_mut(5).unwrap();
    let copied = block.copy_from_slice_init(&[1, 2, 3]);
    assert_eq!(copied.bytes(), &vec![1, 2, 3]);
    let raw = copied.into_raw();
    assert_eq!(raw.len(), 3);

    let err = MemBlockOptions::from_size(3).alloc_mut(-9).unwrap_err();
    assert_eq!(err.code(), -9);
}

#[test]
fn display_is_claimed_once() {
    let mut taken = false;
    let display = Display::take(&mut taken);
    assert!(display.is_some());
    assert!(taken);
    assert!(Display::take(&mut taken).is_none());
    let display = display.unwrap();
    assert!(!display.is_set());
}

#[test]
fn display_framebuffer_swap_follows_the_status_code() {
    let mut taken = false;
    let mut display = Display::take(&mut taken).unwrap();
    let fb = Framebuf::native(1).unwrap();
    let prev = display.replace_framebuf(fb, 0).unwrap();
    assert!(prev.is_none());
    assert!(display.is_set());

    let fb2 = Framebuf::native(2).unwrap();
    let (err, fb2) = display.replace_framebuf(fb2, -3).unwrap_err();
    assert_eq!(err.code(), -3);
    assert!(display.is_set());

    let prev = display.replace_framebuf(fb2, 0).unwrap();
    assert!(prev.is_some());

    let cleared = display.take_framebuf(0).unwrap();
    assert!(cleared.is_some());
    assert!(!display.is_set());
}

#[test]
fn module_load_and_unload_follow_the_codes() {
    let m = Module::load(ModuleId(3), 0).unwrap();
    assert_eq!(m.unload(0), Ok(()));
    let e = Module::load(ModuleId(3), -7).unwrap_err();
    assert_eq!(e.code(), -7);
    let m = Module::load(ModuleId(4), 0).unwrap();
    let e = m.unload(-1).unwrap_err();
    assert_eq!(e.code(), -1);
}

#[test]
fn net_state_reports_the_first_failing_step() {
    assert_eq!(NET_MEMORY_SIZE, 0x400000);
    let g = GlobalState::with_memory_size(64, ModuleId(1), 0, 9, 0, 0).unwrap();
    let _ = g;
    let e = GlobalState::with_memory_size(64, ModuleId(1), -1, 9, 0, 0).unwrap_err();
    assert_eq!(e.code(), -1);
    let e = GlobalState::with_memory_size(64, ModuleId(1), 0, -2, 0, 0).unwrap_err();
    assert_eq!(e.code(), -2);
    let e = GlobalState::with_memory_size(64, ModuleId(1), 0, 9, -3, 0).unwrap_err();
    assert_eq!(e.code(), -3);
    let e = GlobalState::with_memory_size(64, ModuleId(1), 0, 9, 0, -4).unwrap_err();
    assert_eq!(e.code(), -4);
    assert!(GlobalState::new(ModuleId(1), 0, 9, 0, 0).is_ok());
}

#[test]
fn display_waits_follow_the_codes() {
    let mut taken = false;
    let display = Display::take(&mut taken).unwrap();
    assert!(display.wait_set_framebuf(0).is_ok());
    assert_eq!(display.wait_vblank_start(-6).unwrap_err().code(), -6);
    assert!(display.wait_vblank_start_multi(2, 0).is_ok());
}

#[test]
fn freeing_blocks_follows_the_codes() {
    let raw = MemBlockOptions::from_size(16).alloc_mut_raw(21).unwrap();
    assert_eq!(raw.free(0), Ok(()));
    let block = MemBlockOptions::from_size(16).alloc_mut(22).unwrap();
    assert_eq!(block.free(-4).unwrap_err().code(), -4);
    let filled = MemBlockOptions::from_size(2).alloc_mut(23).unwrap().fill_init(1);
    assert_eq!(filled.free(0), Ok(()));
}

#[test]
fn http_handle_creation_follows_the_codes() {
    let t = Template::new(5).unwrap();
    assert_eq!(t.uid, 5);
    let c = t.create_connection_with_url(KeepAlive::Enable, 6).unwrap();
    assert_eq!(c.uid, 6);
    let q = c.create_request(7).unwrap();
    assert_eq!(q.uid, 7);
    let q2 = c.create_request_with_url(8).unwrap();
    assert_eq!(q2.uid, 8);
    assert_eq!(Template::new(-2).unwrap_err().code(), -2);
}

#[test]
fn http_handles_and_keep_alive() {
    assert!(KeepAlive::Enable.as_bool());
    assert!(!KeepAlive::Disable.as_bool());
    assert_eq!(KeepAlive::default(), KeepAlive::Disable);

    let g = cargo_vitasdk::http::GlobalState::new(ModuleId(2), 0, 0);
    assert!(g.is_ok());
    let e = cargo_vitasdk::http::GlobalState::new(ModuleId(2), 0, -8).unwrap_err();
    assert_eq!(e.code(), -8);

    assert_eq!(Template { uid: 1 }.delete(0), Ok(()));
    assert!(cargo_vitasdk::Connection { uid: 2 }.delete(-1).is_err());
    let _keep = KeepAlive::Enable;
    assert_eq!(Request { uid: 3 }.delete(0), Ok(()));
}
