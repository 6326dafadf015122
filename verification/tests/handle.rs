use now_playing_to_file::handle::{HandleKind, ScopedHandle};

#[test]
fn acquired_handle_is_present() {
    let handle = ScopedHandle::acquire(HandleKind::PlayingTrack, 0x1000);
    assert!(handle.present());
    assert_eq!(handle.get_raw(), 0x1000);
    assert_eq!(handle.get_kind(), HandleKind::PlayingTrack);
}

#[test]
fn zero_is_an_absent_handle() {
    let handle = ScopedHandle::acquire(HandleKind::CompiledScript, 0);
    assert!(!handle.present());
    let handle = ScopedHandle::absent(HandleKind::PlayingPlaylist);
    assert!(!handle.present());
    assert_eq!(handle.get_raw(), 0);
    assert_eq!(handle.get_kind(), HandleKind::PlayingPlaylist);
}

#[test]
fn release_is_due_exactly_once() {
    let mut handle = ScopedHandle::acquire(HandleKind::PlayingPlaylist, 77);
    assert_eq!(handle.release(), Some(77));
    assert!(!handle.present());
    assert_eq!(handle.get_kind(), HandleKind::PlayingPlaylist);
    assert_eq!(handle.release(), None);
    assert_eq!(handle.release(), None);
}

#[test]
fn absent_handle_is_never_released() {
    let mut handle = ScopedHandle::absent(HandleKind::PlayingTrack);
    assert_eq!(handle.release(), None);
    let mut handle = ScopedHandle::acquire(HandleKind::PlayingTrack, 0);
    assert_eq!(handle.release(), None);
}
