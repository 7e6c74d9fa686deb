//! What can be sent as the text of a message.

use vstd::prelude::*;
use vstd::utf8::encode_utf8;
use crate::bytes::append_text;
use crate::decimal::{decimal, push_decimal, push_signed_decimal, signed_decimal};

verus! {

/// A value that can be the text of a log message: a string, or a number,
/// which is sent in decimal.
pub trait Message {
    /// The bytes that the value is sent as.
    spec fn text(&self) -> Seq<u8>;

    /// Appends the value's text to `out`.
    fn write_text(&self, out: &mut Vec<u8>)
        ensures
            final(out)@ == old(out)@ + self.text(),
    ;
}

impl<'a> Message for &'a str {
    open spec fn text(&self) -> Seq<u8> {
        encode_utf8(self@)
    }

    fn write_text(&self, out: &mut Vec<u8>) {
        append_text(out, self);
    }
}

impl Message for String {
    open spec fn text(&self) -> Seq<u8> {
        encode_utf8(self@)
    }

    fn write_text(&self, out: &mut Vec<u8>) {
        append_text(out, self.as_str());
    }
}

impl<'a, M: Message> Message for &'a M {
    open spec fn text(&self) -> Seq<u8> {
        (**self).text()
    }

    fn write_text(&self, out: &mut Vec<u8>) {
        (**self).write_text(out);
    }
}

impl Message for u8 {
    open spec fn text(&self) -> Seq<u8> {
        decimal(*self as nat)
    }

    fn write_text(&self, out: &mut Vec<u8>) {
        push_decimal(out, *self as u64);
    }
}

impl Message for u16 {
    open spec fn text(&self) -> Seq<u8> {
        decimal(*self as nat)
    }

    fn write_text(&self, out: &mut Vec<u8>) {
        push_decimal(out, *self as u64);
    }
}

impl Message for u32 {
    open spec fn text(&self) -> Seq<u8> {
        decimal(*self as nat)
    }

    fn write_text(&self, out: &mut Vec<u8>) {
        push_decimal(out, *self as u64);
    }
}

impl Message for u64 {
    open spec fn text(&self) -> Seq<u8> {
        decimal(*self as nat)
    }

    fn write_text(&self, out: &mut Vec<u8>) {
        push_decimal(out, *self);
    }
}

impl Message for usize {
    open spec fn text(&self) -> Seq<u8> {
        decimal(*self as nat)
    }

    fn write_text(&self, out: &mut Vec<u8>) {
        push_decimal(out, *self as u64);
    }
}

impl Message for i8 {
    open spec fn text(&self) -> Seq<u8> {
        signed_decimal(*self as int)
    }

    fn write_text(&self, out: &mut Vec<u8>) {
        push_signed_decimal(out, *self as i64);
    }
}

impl Message for i16 {
    open spec fn text(&self) -> Seq<u8> {
        signed_decimal(*self as int)
    }

    fn write_text(&self, out: &mut Vec<u8>) {
        push_signed_decimal(out, *self as i64);
    }
}

impl Message for i32 {
    open spec fn text(&self) -> Seq<u8> {
        signed_decimal(*self as int)
    }

    fn write_text(&self, out: &mut Vec<u8>) {
        push_signed_decimal(out, *self as i64);
    }
}

impl Message for i64 {
    open spec fn text(&self) -> Seq<u8> {
        signed_decimal(*self as int)
    }

    fn write_text(&self, out: &mut Vec<u8>) {
        push_signed_decimal(out, *self);
    }
}

impl Message for isize {
    open spec fn text(&self) -> Seq<u8> {
        signed_decimal(*self as int)
    }

    fn write_text(&self, out: &mut Vec<u8>) {
        push_signed_decimal(out, *self as i64);
    }
}

} // verus!
