use vstd::prelude::*;
use std::marker::PhantomData;
use std::sync::Arc;

use crate::shutdown_type::ShutdownType;

verus! {

/// An event that the host or another extension sends to an extension.
#[derive(Debug)]
pub enum EventType {
    VMRun,
    VMEnd,
    VMShutdown(ShutdownType),
    Foreign { from: u32, event: u32, payload: UnsafeEventArgs },
}

/// The payload of a foreign event, with its type erased: the address of a
/// value that a shared pointer holds.
#[derive(Debug)]
pub struct UnsafeEventArgs(pub(crate) usize);

/// The payload of a foreign event, with the type of the value it holds.
///
/// Dropping a payload does not give up its share of the value: Verus has no
/// destructors, and the release needs unsafe code, so the value is released
/// only by an explicit call outside this library.
pub struct EventArgs<T>(UnsafeEventArgs, PhantomData<T>);

impl View for UnsafeEventArgs {
    type V = usize;

    /// The address of the shared value.
    closed spec fn view(&self) -> usize {
        self.0
    }
}

/// A payload built from an address views as that address.
pub(crate) proof fn lemma_view_of_address(address: usize)
    ensures
        UnsafeEventArgs(address)@ == address,
{
}

impl<T> View for EventArgs<T> {
    type V = usize;

    /// The address of the shared value.
    closed spec fn view(&self) -> usize {
        self.0@
    }
}

/// Hands a shared pointer over as the address of the value it holds, keeping
/// its count. Calls `Arc::into_raw`, whose pointer is never null and is aligned
/// for `T` (it is the pointer that `Arc::from_raw` takes back); beyond that
/// nothing is stated of the address, which the allocator chose.
#[verifier::external_body]
fn arc_into_address<T>(shared: Arc<T>) -> (address: usize)
    ensures
        address != 0,
        address as nat % vstd::layout::align_of::<T>() == 0,
{
    Arc::into_raw(shared) as usize
}

/// Appends a character. Calls `String::push`, which adds `c` at the end.
#[verifier::external_body]
fn push_char(text: &mut String, c: char)
    ensures
        final(text)@ == old(text)@.push(c),
{
    text.push(c)
}

/// The lower-case hexadecimal digit of a value below sixteen.
pub open spec fn hex_digit(d: nat) -> char {
    if d < 10 {
        (48 + d) as char
    } else {
        (87 + d) as char
    }
}

/// The `n` lowest hexadecimal digits of `x`, the most significant first.
pub open spec fn hex_digits(x: nat, n: nat) -> Seq<char>
    decreases n,
{
    if n == 0 {
        Seq::empty()
    } else {
        hex_digits(x / 16, (n - 1) as nat).push(hex_digit(x % 16))
    }
}

/// How a payload prints: its name, then its address as sixteen hexadecimal
/// digits after `0x`, in brackets.
pub open spec fn address_text(name: Seq<char>, address: usize) -> Seq<char> {
    name + seq!['(', '0', 'x'] + hex_digits(address as nat, 16) + seq![')']
}

fn hex_char(d: u64) -> (c: char)
    requires
        d < 16,
    ensures
        c == hex_digit(d as nat),
{
    if d < 10 {
        ((48 + d) as u8) as char
    } else {
        ((87 + d) as u8) as char
    }
}

fn push_hex_digits(text: &mut String, x: u64, n: u32)
    ensures
        final(text)@ == old(text)@ + hex_digits(x as nat, n as nat),
    decreases n,
{
    if n > 0 {
        push_hex_digits(text, x / 16, n - 1);
        push_char(text, hex_char(x % 16));
        proof {
            assert(hex_digits(x as nat, n as nat) == hex_digits((x / 16) as nat, (n - 1) as nat).push(
                hex_digit((x % 16) as nat),
            ));
        }
    } else {
        assert(old(text)@ + hex_digits(x as nat, 0) == old(text)@);
    }
}

fn address_debug_text(name: &str, address: usize) -> (text: String)
    ensures
        text@ == address_text(name@, address),
{
    let mut text = String::from_str(name);
    push_char(&mut text, '(');
    push_char(&mut text, '0');
    push_char(&mut text, 'x');
    push_hex_digits(&mut text, address as u64, 16);
    push_char(&mut text, ')');
    text
}

impl UnsafeEventArgs {
    /// Shares `data` and erases its type.
    pub(crate) fn new<T>(data: T) -> (args: UnsafeEventArgs)
        ensures
            args@ != 0,
            args@ as nat % vstd::layout::align_of::<T>() == 0,
    {
        UnsafeEventArgs(arc_into_address(Arc::new(data)))
    }

    /// The address of the shared value.
    pub fn address(&self) -> (a: usize)
        ensures
            a == self@,
    {
        self.0
    }

    /// The text by which the payload prints.
    pub fn debug_text(&self) -> (text: String)
        ensures
            text@ == address_text("UnsafeEventArgs"@, self@),
    {
        address_debug_text("UnsafeEventArgs", self.0)
    }
}

impl<T> EventArgs<T> {
    /// Shares `data` as the payload of a foreign event.
    pub fn new(data: T) -> (args: EventArgs<T>)
        ensures
            args@ != 0,
            args@ as nat % vstd::layout::align_of::<T>() == 0,
    {
        EventArgs(UnsafeEventArgs::new(data), PhantomData)
    }

    /// The address of the shared value.
    pub fn address(&self) -> (a: usize)
        ensures
            a == self@,
    {
        self.0.0
    }

    /// The text by which the payload prints.
    pub fn debug_text(&self) -> (text: String)
        ensures
            text@ == address_text("EventArgs"@, self@),
    {
        address_debug_text("EventArgs", self.0.0)
    }
}

impl<T> From<EventArgs<T>> for UnsafeEventArgs {
    /// Erases the type of a payload; the address stays.
    fn from(args: EventArgs<T>) -> (r: UnsafeEventArgs) {
        args.0
    }
}

impl<T> vstd::std_specs::convert::FromSpecImpl<EventArgs<T>> for UnsafeEventArgs {
    open spec fn obeys_from_spec() -> bool {
        true
    }

    closed spec fn from_spec(v: EventArgs<T>) -> UnsafeEventArgs {
        v.0
    }
}

impl<T> From<UnsafeEventArgs> for EventArgs<T> {
    /// Gives a payload the type of the value it holds; the address stays.
    fn from(args: UnsafeEventArgs) -> (r: EventArgs<T>) {
        EventArgs(args, PhantomData)
    }
}

impl<T> vstd::std_specs::convert::FromSpecImpl<UnsafeEventArgs> for EventArgs<T> {
    open spec fn obeys_from_spec() -> bool {
        true
    }

    closed spec fn from_spec(v: UnsafeEventArgs) -> EventArgs<T> {
        EventArgs(v, PhantomData)
    }
}

/// Erasing the type of a payload, or giving it back, keeps its address; so
/// the two conversions undo each other.
pub proof fn lemma_conversions_keep_address<T>(typed: EventArgs<T>, erased: UnsafeEventArgs)
    ensures
        <UnsafeEventArgs as vstd::std_specs::convert::FromSpec<EventArgs<T>>>::from_spec(typed)@ == typed@,
        <EventArgs<T> as vstd::std_specs::convert::FromSpec<UnsafeEventArgs>>::from_spec(erased)@ == erased@,
{
}

} // verus!
