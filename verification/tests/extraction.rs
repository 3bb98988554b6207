use folco::adapter::AppState;
use folco::error::ExtractError;
use folco::guard::{HandleBuilder, IconEncoder, PlatformHandle, ResourceGuard};
use folco::icon::IconSnapshot;

struct FixedBuilder {
    width: u32,
    height: u32,
}

impl HandleBuilder for FixedBuilder {
    fn build(&self) -> Result<PlatformHandle, String> {
        let n = 4usize * self.width as usize * self.height as usize;
        let snapshot = IconSnapshot::new(self.width, self.height, vec![0xABu8; n]).unwrap();
        Ok(PlatformHandle::new(snapshot))
    }
}

struct HeaderEncoder;

impl IconEncoder for HeaderEncoder {
    fn encode(&self, snapshot: &IconSnapshot) -> Result<Vec<u8>, String> {
        let mut out = vec![0x89u8, 0x50, 0x4E, 0x47];
        out.extend_from_slice(snapshot.rgba().as_slice());
        Ok(out)
    }
}

struct FailingEncoder;

impl IconEncoder for FailingEncoder {
    fn encode(&self, _snapshot: &IconSnapshot) -> Result<Vec<u8>, String> {
        Err("unsupported pixel format".to_string())
    }
}

#[test]
fn healthy_extraction_returns_payload() {
    let state = AppState::new(&FixedBuilder { width: 2, height: 3 }, HeaderEncoder).ok().unwrap();
    let payload = state.get_folder_icon_base().unwrap();
    assert!(payload.bytes.len() > 0);
    assert_eq!(payload.width, 2);
    assert_eq!(payload.height, 3);
    assert_eq!(payload.bytes.len(), 4 + 4 * 2 * 3);
}

#[test]
fn encoder_failure_is_reported_as_string() {
    let state = AppState::new(&FixedBuilder { width: 2, height: 2 }, FailingEncoder).ok().unwrap();
    let result = state.get_folder_icon_base();
    assert_eq!(
        result,
        Err("Failed to encode icon as PNG: unsupported pixel format".to_string())
    );
}

#[test]
fn guard_reports_typed_encoding_failure() {
    let snapshot = IconSnapshot::new(2, 2, vec![0u8; 16]).unwrap();
    let guard = ResourceGuard::new(PlatformHandle::new(snapshot), FailingEncoder);
    let result = guard.extract_icon_base();
    assert_eq!(
        result,
        Err(ExtractError::EncodingFailure("unsupported pixel format".to_string()))
    );
}

#[test]
fn guard_success_carries_snapshot_dimensions() {
    let snapshot = IconSnapshot::new(5, 1, vec![7u8; 20]).unwrap();
    let guard = ResourceGuard::new(PlatformHandle::new(snapshot), HeaderEncoder);
    let payload = guard.extract_icon_base().unwrap();
    assert_eq!(payload.width, 5);
    assert_eq!(payload.height, 1);
    assert_eq!(payload.bytes, {
        let mut expected = vec![0x89u8, 0x50, 0x4E, 0x47];
        expected.extend_from_slice(&[7u8; 20]);
        expected
    });
}

#[test]
fn repeated_extraction_is_idempotent() {
    let state = AppState::new(&FixedBuilder { width: 2, height: 2 }, HeaderEncoder).ok().unwrap();
    let first = state.get_folder_icon_base().unwrap();
    let mut i = 0usize;
    while i < 10 {
        let again = state.get_folder_icon_base().unwrap();
        assert_eq!(again, first);
        assert!(again.bytes.len() > 0);
        i += 1;
    }
}

#[test]
fn fifty_requests_all_complete() {
    let state = AppState::new(&FixedBuilder { width: 4, height: 4 }, HeaderEncoder).ok().unwrap();
    let mut completed = 0usize;
    while completed < 50 {
        let payload = state.get_folder_icon_base().unwrap();
        assert_eq!(payload.width, 4);
        assert_eq!(payload.height, 4);
        assert_eq!(payload.bytes.len(), 4 + 4 * 4 * 4);
        completed += 1;
    }
    assert_eq!(completed, 50);
}
