use folco::adapter::{init_from_build, AppState};
use folco::guard::{HandleBuilder, IconEncoder, PlatformHandle};
use folco::icon::IconSnapshot;

struct OnePixelBuilder;

impl HandleBuilder for OnePixelBuilder {
    fn build(&self) -> Result<PlatformHandle, String> {
        let snapshot = IconSnapshot::new(1, 1, vec![255u8, 255, 255, 255]).unwrap();
        Ok(PlatformHandle::new(snapshot))
    }
}

struct FailingBuilder;

impl HandleBuilder for FailingBuilder {
    fn build(&self) -> Result<PlatformHandle, String> {
        Err("COM initialization failed".to_string())
    }
}

struct RawEncoder;

impl IconEncoder for RawEncoder {
    fn encode(&self, snapshot: &IconSnapshot) -> Result<Vec<u8>, String> {
        Ok(snapshot.rgba().clone())
    }
}

#[test]
fn healthy_builder_yields_state() {
    let state = AppState::new(&OnePixelBuilder, RawEncoder);
    assert!(matches!(state, Ok(_)));
}

#[test]
fn failed_build_reports_init_marker() {
    let state = AppState::new(&FailingBuilder, RawEncoder);
    match state {
        Ok(_) => panic!("construction must fail when the builder fails"),
        Err(message) => assert_eq!(
            message,
            "Failed to initialize customization context: COM initialization failed"
        ),
    }
}

#[test]
fn init_from_build_passes_handle_through() {
    let snapshot = IconSnapshot::new(1, 2, vec![9u8; 8]).unwrap();
    let state = init_from_build(Ok(PlatformHandle::new(snapshot)), RawEncoder).ok().unwrap();
    let payload = state.get_folder_icon_base().unwrap();
    assert_eq!(payload.width, 1);
    assert_eq!(payload.height, 2);
    assert_eq!(payload.bytes, vec![9u8; 8]);
}

#[test]
fn init_from_build_formats_builder_error() {
    let state = init_from_build(Err("access denied".to_string()), RawEncoder);
    match state {
        Ok(_) => panic!("an error outcome must stay an error"),
        Err(message) => assert_eq!(
            message,
            "Failed to initialize customization context: access denied"
        ),
    }
}
