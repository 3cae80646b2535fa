//! A bounded byte buffer that serializes values into contiguous memory for
//! the publish path: fixed capacity, no allocation surprises at publish
//! time, append-only.

use vstd::prelude::*;

verus! {

/// The buffer capacity, shared with the transport's own buffers.
pub const MQTT_BUF_SIZE: usize = 1024;

/// A bounded buffer of serialized bytes.
#[derive(Debug)]
pub struct MqttBuffer {
    /// The filled part of the buffer.
    data: Vec<u8>,
}

impl View for MqttBuffer {
    type V = Seq<u8>;

    closed spec fn view(&self) -> Seq<u8> {
        self.data@
    }
}

/// Relies on `core::fmt::Display` through `format!`: renders a value to its
/// display text. Nothing is assumed of the text, since the impl is the
/// caller's.
#[verifier::external_body]
fn display_bytes<T: core::fmt::Display>(value: &T) -> (r: Vec<u8>) {
    format!("{}", value).into_bytes()
}

impl MqttBuffer {
    /// The buffer never outgrows its fixed capacity.
    pub open spec fn wf(&self) -> bool {
        self@.len() <= MQTT_BUF_SIZE
    }

    /// Creates a new, empty buffer.
    pub fn new() -> (r: Self)
        ensures
            r@ == Seq::<u8>::empty(),
            r.wf(),
    {
        MqttBuffer { data: Vec::new() }
    }

    /// Wraps the given bytes, which must fit the capacity.
    pub fn from_bytes(bytes: &[u8]) -> (r: Self)
        requires
            bytes@.len() <= MQTT_BUF_SIZE,
        ensures
            r@ == bytes@,
            r.wf(),
    {
        let mut data: Vec<u8> = Vec::new();
        let mut i: usize = 0;
        while i < bytes.len()
            invariant
                i <= bytes@.len() <= MQTT_BUF_SIZE,
                data@ == bytes@.subrange(0, i as int),
            decreases bytes@.len() - i,
        {
            data.push(bytes[i]);
            i = i + 1;
            proof {
                assert(data@ =~= bytes@.subrange(0, i as int));
            }
        }
        proof {
            assert(bytes@.subrange(0, bytes@.len() as int) =~= bytes@);
        }
        MqttBuffer { data }
    }

    /// Creates a buffer from the given value's display text. The text comes
    /// from the value's own formatting impl, so only well-formedness is
    /// known; an oversized text is cut at the capacity.
    pub fn from_display<T: core::fmt::Display>(value: T) -> (r: Self)
        ensures
            r.wf(),
    {
        let rendered = display_bytes(&value);
        if rendered.len() <= MQTT_BUF_SIZE {
            MqttBuffer::from_bytes(rendered.as_slice())
        } else {
            let mut data: Vec<u8> = Vec::new();
            let mut i: usize = 0;
            while i < MQTT_BUF_SIZE
                invariant
                    i <= MQTT_BUF_SIZE < rendered@.len(),
                    data@.len() == i,
                decreases MQTT_BUF_SIZE - i,
            {
                data.push(rendered[i]);
                i = i + 1;
            }
            MqttBuffer { data }
        }
    }

    /// The number of filled bytes.
    pub fn len(&self) -> (r: usize)
        ensures
            r == self@.len(),
    {
        self.data.len()
    }

    /// The filled bytes.
    pub fn as_bytes(&self) -> (r: &[u8])
        ensures
            r@ == self@,
    {
        self.data.as_slice()
    }

    /// Appends the given bytes if they fit the remaining capacity, and
    /// reports whether they did; a failed append changes nothing.
    pub fn append(&mut self, bytes: &[u8]) -> (ok: bool)
        requires
            old(self).wf(),
        ensures
            final(self).wf(),
            ok <==> old(self)@.len() + bytes@.len() <= MQTT_BUF_SIZE,
            ok ==> final(self)@ == old(self)@ + bytes@,
            !ok ==> final(self)@ == old(self)@,
    {
        if bytes.len() > MQTT_BUF_SIZE - self.data.len() {
            return false;
        }
        let ghost orig = self.data@;
        let mut i: usize = 0;
        while i < bytes.len()
            invariant
                i <= bytes@.len(),
                orig.len() + bytes@.len() <= MQTT_BUF_SIZE,
                self.data@ == orig + bytes@.subrange(0, i as int),
            decreases bytes@.len() - i,
        {
            self.data.push(bytes[i]);
            i = i + 1;
            proof {
                assert(self.data@ =~= orig + bytes@.subrange(0, i as int));
            }
        }
        proof {
            assert(orig + bytes@.subrange(0, bytes@.len() as int) =~= orig + bytes@);
        }
        true
    }

    /// Removes the first `n` bytes, keeping the rest in order (the way a
    /// receive buffer discards one decoded packet).
    pub fn consume(&mut self, n: usize)
        requires
            n <= old(self)@.len(),
        ensures
            final(self)@ == old(self)@.skip(n as int),
            old(self).wf() ==> final(self).wf(),
    {
        let mut rest: Vec<u8> = Vec::new();
        let mut i: usize = n;
        while i < self.data.len()
            invariant
                n <= i <= self.data@.len(),
                rest@ == self.data@.subrange(n as int, i as int),
            decreases self.data@.len() - i,
        {
            rest.push(self.data[i]);
            i = i + 1;
            proof {
                assert(rest@ =~= self.data@.subrange(n as int, i as int));
            }
        }
        proof {
            assert(self.data@.subrange(n as int, self.data@.len() as int) =~= self.data@.skip(
                n as int,
            ));
        }
        self.data = rest;
    }
}

} // verus!
