use krun_host::host::StatusFlags;
use nix::fcntl::OFlag;

#[test]
fn blocking_clears_nonblock() {
    let host = StatusFlags::host();
    assert_eq!(host.blocking(libc::O_RDWR | libc::O_NONBLOCK), libc::O_RDWR);
    assert_eq!(host.blocking(libc::O_RDWR), libc::O_RDWR);
    assert_eq!(host.blocking(libc::O_NONBLOCK), 0);
    assert_eq!(host.blocking(0), 0);
}

#[test]
fn blocking_twice_is_blocking_once() {
    let host = StatusFlags::host();
    let flags = libc::O_WRONLY | libc::O_APPEND | libc::O_NONBLOCK;
    let once = host.blocking(flags);
    assert_eq!(once, libc::O_WRONLY | libc::O_APPEND);
    assert_eq!(host.blocking(once), once);
}

#[test]
fn flags_without_a_name_are_dropped() {
    let host = StatusFlags::host();
    let unnamed = !OFlag::all().bits();
    assert_eq!(host.blocking(unnamed | libc::O_RDWR), libc::O_RDWR);
    assert_eq!(
        host.blocking(-1),
        (OFlag::from_bits_retain(-1) & !OFlag::O_NONBLOCK).bits()
    );
}
