//! What the worker takes from the host's libraries.

use crate::protocol::Transfer3D;
use vstd::prelude::*;
use vstd::utf8::{decode_utf8, valid_utf8};

verus! {

/// The event bits of `poll(2)`. Their values are the host's; only this module makes one.
#[derive(Clone, Copy, Debug)]
pub struct PollBits {
    input: i16,
    hang_up: i16,
    error: i16,
}

impl PollBits {
    /// The bit for data to read.
    pub closed spec fn input(self) -> i16 {
        self.input
    }

    /// The bit for a peer that hung up.
    pub closed spec fn hang_up(self) -> i16 {
        self.hang_up
    }

    /// The bit for an error.
    pub closed spec fn error(self) -> i16 {
        self.error
    }

    /// Whether these are bits that the host gave.
    pub closed spec fn from_host(self) -> bool {
        call_ensures(host_poll_bits, (), self)
    }

    /// The host's bits.
    pub fn host() -> (r: PollBits)
        ensures
            r.input() != 0,
            r.hang_up() != 0,
            r.error() != 0,
            r.from_host(),
    {
        host_poll_bits()
    }

    /// What returned events `revents` say: there is something to do when any of the three bits
    /// is set.
    pub open spec fn is_ready(self, revents: i16) -> bool {
        revents & (self.input() | self.hang_up() | self.error()) != 0
    }

    /// The bit for data to read.
    pub fn get_input(&self) -> (r: i16)
        ensures
            r == self.input(),
    {
        self.input
    }

    /// Tells whether `revents` asks for attention.
    pub fn ready(&self, revents: i16) -> (r: bool)
        ensures
            r == self.is_ready(revents),
    {
        revents & (self.input | self.hang_up | self.error) != 0
    }
}

/// `libc::POLLIN`, `libc::POLLHUP` and `libc::POLLERR`. What is claimed is that none of the
/// three is zero. Their values differ between systems, so they are left unsaid.
#[verifier::external_body]
fn host_poll_bits() -> (r: PollBits)
    ensures
        r.input() != 0,
        r.hang_up() != 0,
        r.error() != 0,
{
    PollBits { input: libc::POLLIN, hang_up: libc::POLLHUP, error: libc::POLLERR }
}

/// The status flags of a file descriptor, as the host numbers them.
#[derive(Clone, Copy, Debug)]
pub struct StatusFlags {
    known: i32,
    nonblock: i32,
    mask: i32,
}

impl StatusFlags {
    /// All flags that have a name.
    pub closed spec fn known(self) -> i32 {
        self.known
    }

    /// The flag of a descriptor that does not block.
    pub closed spec fn nonblock(self) -> i32 {
        self.nonblock
    }

    /// All flags that have a name, but for that one.
    pub closed spec fn mask(self) -> i32 {
        self.mask
    }

    /// What ties the three together.
    pub open spec fn wf(self) -> bool {
        &&& self.nonblock() != 0
        &&& self.nonblock() & self.known() == self.nonblock()
        &&& self.mask() == self.known() & !self.nonblock()
    }

    /// Whether these are flags that the host gave.
    pub closed spec fn from_host(self) -> bool {
        call_ensures(host_status_flags, (), self)
    }

    /// The host's flags.
    pub fn host() -> (r: StatusFlags)
        ensures
            r.wf(),
            r.from_host(),
    {
        host_status_flags()
    }

    /// The flags with which a descriptor that has `flags` blocks: those that have a name, but
    /// for the one of a descriptor that does not block.
    pub fn blocking(&self, flags: i32) -> (r: i32)
        requires
            self.wf(),
        ensures
            r == flags & (self.known() & !self.nonblock()),
            r & self.nonblock() == 0,
    {
        let r: i32 = intersect_status_flags(flags, self.mask);
        proof {
            let known = self.known;
            let nonblock = self.nonblock;
            assert((flags & (known & !nonblock)) & nonblock == 0) by (bit_vector);
        }
        r
    }
}

/// A descriptor is made to block by clearing one flag: that flag is gone, every other flag that
/// has a name stays as it was, and a flag without a name is not kept.
pub proof fn law_blocking_clears_one_flag(host: StatusFlags, flags: i32, r: i32, flag: i32)
    requires
        call_ensures(StatusFlags::blocking, (&host, flags), r),
    ensures
        r & host.nonblock() == 0,
        flag & host.known() == flag && flag & host.nonblock() == 0 ==> r & flag == flags & flag,
        flag & host.known() == 0 ==> r & flag == 0,
{
    let known = host.known();
    let nonblock = host.nonblock();
    assert((flags & (known & !nonblock)) & nonblock == 0) by (bit_vector);
    assert(flag & known == flag && flag & nonblock == 0 ==> (flags & (known & !nonblock)) & flag
        == flags & flag) by (bit_vector);
    assert(flag & known == 0 ==> (flags & (known & !nonblock)) & flag == 0) by (bit_vector);
}

/// Making a descriptor block a second time changes nothing.
pub proof fn law_blocking_twice_is_blocking_once(host: StatusFlags, flags: i32, once: i32, twice: i32)
    requires
        call_ensures(StatusFlags::blocking, (&host, flags), once),
        call_ensures(StatusFlags::blocking, (&host, once), twice),
    ensures
        twice == once,
{
    let known = host.known();
    let nonblock = host.nonblock();
    assert((flags & (known & !nonblock)) & (known & !nonblock) == flags & (known & !nonblock))
        by (bit_vector);
}

/// Events ask for attention exactly if they hold at least one of the three bits, whatever else
/// they hold.
pub proof fn law_each_bit_asks_for_attention(bits: PollBits, revents: i16, r: bool)
    requires
        call_ensures(PollBits::ready, (&bits, revents), r),
    ensures
        r <==> (revents & bits.input() != 0 || revents & bits.hang_up() != 0 || revents
            & bits.error() != 0),
{
    lemma_ready_bits(bits, revents);
}

/// `is_ready`, bit by bit.
pub(crate) proof fn lemma_ready_bits(bits: PollBits, revents: i16)
    ensures
        bits.is_ready(revents) <==> (revents & bits.input() != 0 || revents & bits.hang_up() != 0
            || revents & bits.error() != 0),
{
    let a = bits.input();
    let b = bits.hang_up();
    let c = bits.error();
    assert(revents & (a | b | c) != 0 <==> (revents & a != 0 || revents & b != 0 || revents & c
        != 0)) by (bit_vector);
}

/// `nix::fcntl::OFlag`: all named flags, `O_NONBLOCK`, and the complement `!O_NONBLOCK`. What is
/// claimed is that `O_NONBLOCK` is among the named flags and not zero, and that its complement
/// is taken within them. The values differ between systems, so they are left unsaid.
#[verifier::external_body]
fn host_status_flags() -> (r: StatusFlags)
    ensures
        r.wf(),
{
    StatusFlags {
        known: nix::fcntl::OFlag::all().bits(),
        nonblock: nix::fcntl::OFlag::O_NONBLOCK.bits(),
        mask: (!nix::fcntl::OFlag::O_NONBLOCK).bits(),
    }
}

/// `&` of `nix::fcntl::OFlag`, on flags made by `OFlag::from_bits_retain`. What is claimed is
/// that it is the bitwise `and`.
#[verifier::external_body]
fn intersect_status_flags(flags: i32, mask: i32) -> (r: i32)
    ensures
        r == flags & mask,
{
    (nix::fcntl::OFlag::from_bits_retain(flags) & nix::fcntl::OFlag::from_bits_retain(mask)).bits()
}

/// `String::from_utf8`, with the error dropped. What is claimed is that it gives a string
/// exactly on valid UTF-8, and that the string is what the bytes encode.
#[verifier::external_body]
pub(crate) fn string_from_utf8(bytes: Vec<u8>) -> (r: Option<String>)
    ensures
        r is Some <==> valid_utf8(bytes@),
        r matches Some(s) ==> s@ == decode_utf8(bytes@),
{
    String::from_utf8(bytes).ok()
}

/// `rutabaga_gfx::Transfer3D::new_2d`. What is claimed is that the box is the given rectangle
/// at depth zero, one texel deep, on the first level, with no strides and no offset.
#[verifier::external_body]
pub(crate) fn transfer_2d(x: u32, y: u32, w: u32, h: u32) -> (r: Transfer3D)
    ensures
        r == flat_transfer(x, y, w, h),
{
    let t = rutabaga_gfx::Transfer3D::new_2d(x, y, w, h);
    Transfer3D {
        x: t.x,
        y: t.y,
        z: t.z,
        w: t.w,
        h: t.h,
        d: t.d,
        level: t.level,
        stride: t.stride,
        layer_stride: t.layer_stride,
        offset: t.offset,
    }
}

/// A transfer of a rectangle that lies flat in space.
pub open spec fn flat_transfer(x: u32, y: u32, w: u32, h: u32) -> Transfer3D {
    Transfer3D { x, y, z: 0, w, h, d: 1, level: 0, stride: 0, layer_stride: 0, offset: 0 }
}

/// The target of a two-dimensional texture.
pub const PIPE_TEXTURE_2D: u32 = 2;

/// The binding of a resource that is rendered to.
pub const PIPE_BIND_RENDER_TARGET: u32 = 2;

/// `rutabaga_gfx::RUTABAGA_PIPE_TEXTURE_2D`. What is claimed is its value.
#[verifier::external_body]
pub(crate) fn pipe_texture_2d() -> (r: u32)
    ensures
        r == PIPE_TEXTURE_2D,
{
    rutabaga_gfx::RUTABAGA_PIPE_TEXTURE_2D
}

/// `rutabaga_gfx::RUTABAGA_PIPE_BIND_RENDER_TARGET`. What is claimed is its value.
#[verifier::external_body]
pub(crate) fn pipe_bind_render_target() -> (r: u32)
    ensures
        r == PIPE_BIND_RENDER_TARGET,
{
    rutabaga_gfx::RUTABAGA_PIPE_BIND_RENDER_TARGET
}

} // verus!
