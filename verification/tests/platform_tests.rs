use gengine_clipboard::{Adapter, DisplayKind};
use raw_window_handle::{
    AndroidDisplayHandle, AppKitDisplayHandle, HaikuDisplayHandle, RawDisplayHandle,
    UiKitDisplayHandle, WaylandDisplayHandle, WebDisplayHandle, WindowsDisplayHandle,
    XcbDisplayHandle, XlibDisplayHandle,
};

#[test]
fn x_displays_get_the_x11_adapter() {
    let xlib = RawDisplayHandle::Xlib(XlibDisplayHandle::new(None, 0));
    let xcb = RawDisplayHandle::Xcb(XcbDisplayHandle::new(None, 0));
    assert_eq!(Adapter::select(&xlib), Some(Adapter::X11));
    assert_eq!(Adapter::select(&xcb), Some(Adapter::X11));
}

#[test]
fn a_wayland_display_gets_the_wayland_adapter() {
    let handle = RawDisplayHandle::Wayland(WaylandDisplayHandle::new(std::ptr::NonNull::dangling()));
    assert_eq!(Adapter::select(&handle), Some(Adapter::Wayland));
}

#[test]
fn windows_and_web_displays_get_their_adapters() {
    let windows = RawDisplayHandle::Windows(WindowsDisplayHandle::new());
    let web = RawDisplayHandle::Web(WebDisplayHandle::new());
    assert_eq!(Adapter::select(&windows), Some(Adapter::Windows));
    assert_eq!(Adapter::select(&web), Some(Adapter::Browser));
}

#[test]
fn other_displays_get_no_adapter() {
    let handle = RawDisplayHandle::AppKit(AppKitDisplayHandle::new());
    assert_eq!(Adapter::select(&handle), None);
}

#[test]
fn adapter_by_kind() {
    assert_eq!(Adapter::for_kind(DisplayKind::Xlib), Some(Adapter::X11));
    assert_eq!(Adapter::for_kind(DisplayKind::Xcb), Some(Adapter::X11));
    assert_eq!(Adapter::for_kind(DisplayKind::Wayland), Some(Adapter::Wayland));
    assert_eq!(Adapter::for_kind(DisplayKind::Windows), Some(Adapter::Windows));
    assert_eq!(Adapter::for_kind(DisplayKind::Web), Some(Adapter::Browser));
    assert_eq!(Adapter::for_kind(DisplayKind::Other), None);
}

#[test]
fn displays_of_other_systems_get_no_adapter() {
    for handle in [
        RawDisplayHandle::UiKit(UiKitDisplayHandle::new()),
        RawDisplayHandle::Android(AndroidDisplayHandle::new()),
        RawDisplayHandle::Haiku(HaikuDisplayHandle::new()),
    ] {
        assert_eq!(Adapter::select(&handle), None);
    }
}
