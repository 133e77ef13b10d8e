//! Records: tuples of two to six fields, laid out in the order of their
//! components with nothing between them. A component may itself be a tuple,
//! so a record can have any number of fields.

use vstd::prelude::*;
use crate::cursor::{read_field, write_field};
use crate::error::CodecError;
use crate::layout::{BytesDecodeExt, BytesEncodeExt, FixedLayout};

verus! {

/// A record of two fields.
impl<A: FixedLayout, B: FixedLayout> FixedLayout for (A, B) {
    open spec fn width() -> nat {
        A::width() + B::width()
    }

    open spec fn to_wire(&self) -> Seq<u8> {
        self.0.to_wire() + self.1.to_wire()
    }

    open spec fn from_wire(bytes: Seq<u8>) -> (A, B) {
        let end0 = A::width() as int;
        let end1 = end0 + B::width();
        (
            A::from_wire(bytes.subrange(0, end0)),
            B::from_wire(bytes.subrange(end0, end1)),
        )
    }

    proof fn lemma_wire_len(&self) {
        self.0.lemma_wire_len();
        self.1.lemma_wire_len();
    }

    proof fn lemma_value_round_trip(&self) {
        let end0 = A::width() as int;
        let end1 = end0 + B::width();
        let wire = self.to_wire();
        self.0.lemma_wire_len();
        self.1.lemma_wire_len();
        assert(wire.subrange(0, end0) =~= self.0.to_wire());
        self.0.lemma_value_round_trip();
        assert(wire.subrange(end0, end1) =~= self.1.to_wire());
        self.1.lemma_value_round_trip();
    }

    proof fn lemma_wire_round_trip(bytes: Seq<u8>) {
        let end0 = A::width() as int;
        let end1 = end0 + B::width();
        A::lemma_wire_round_trip(bytes.subrange(0, end0));
        B::lemma_wire_round_trip(bytes.subrange(end0, end1));
        assert(Self::from_wire(bytes).to_wire() =~= bytes);
    }
}

impl<A: BytesDecodeExt, B: BytesDecodeExt> BytesDecodeExt for (A, B) {
    fn decode_prefix(bytes: &[u8]) -> (r: Result<((A, B), usize), CodecError>) {
        let (f0, at0): (A, usize) = read_field::<A>(bytes, 0)?;
        let (f1, at1): (B, usize) = read_field::<B>(bytes, at0)?;
        proof {
            let end0 = A::width() as int;
            let end1 = end0 + B::width();
            let whole = bytes@.take(Self::width() as int);
            assert(whole.subrange(0, end0) =~= bytes@.subrange(0, end0));
            assert(whole.subrange(end0, end1) =~= bytes@.subrange(end0, end1));
        }
        Ok(((f0, f1), at1))
    }
}

impl<A: BytesEncodeExt, B: BytesEncodeExt> BytesEncodeExt for (A, B) {
    fn encode(&self) -> (r: Result<Vec<u8>, CodecError>) {
        let mut out: Vec<u8> = Vec::new();
        write_field(&self.0, &mut out)?;
        write_field(&self.1, &mut out)?;
        Ok(out)
    }
}

/// A record of three fields.
impl<A: FixedLayout, B: FixedLayout, C: FixedLayout> FixedLayout for (A, B, C) {
    open spec fn width() -> nat {
        A::width() + B::width() + C::width()
    }

    open spec fn to_wire(&self) -> Seq<u8> {
        self.0.to_wire() + self.1.to_wire() + self.2.to_wire()
    }

    open spec fn from_wire(bytes: Seq<u8>) -> (A, B, C) {
        let end0 = A::width() as int;
        let end1 = end0 + B::width();
        let end2 = end1 + C::width();
        (
            A::from_wire(bytes.subrange(0, end0)),
            B::from_wire(bytes.subrange(end0, end1)),
            C::from_wire(bytes.subrange(end1, end2)),
        )
    }

    proof fn lemma_wire_len(&self) {
        self.0.lemma_wire_len();
        self.1.lemma_wire_len();
        self.2.lemma_wire_len();
    }

    proof fn lemma_value_round_trip(&self) {
        let end0 = A::width() as int;
        let end1 = end0 + B::width();
        let end2 = end1 + C::width();
        let wire = self.to_wire();
        self.0.lemma_wire_len();
        self.1.lemma_wire_len();
        self.2.lemma_wire_len();
        assert(wire.subrange(0, end0) =~= self.0.to_wire());
        self.0.lemma_value_round_trip();
        assert(wire.subrange(end0, end1) =~= self.1.to_wire());
        self.1.lemma_value_round_trip();
        assert(wire.subrange(end1, end2) =~= self.2.to_wire());
        self.2.lemma_value_round_trip();
    }

    proof fn lemma_wire_round_trip(bytes: Seq<u8>) {
        let end0 = A::width() as int;
        let end1 = end0 + B::width();
        let end2 = end1 + C::width();
        A::lemma_wire_round_trip(bytes.subrange(0, end0));
        B::lemma_wire_round_trip(bytes.subrange(end0, end1));
        C::lemma_wire_round_trip(bytes.subrange(end1, end2));
        assert(Self::from_wire(bytes).to_wire() =~= bytes);
    }
}

impl<A: BytesDecodeExt, B: BytesDecodeExt, C: BytesDecodeExt> BytesDecodeExt for (A, B, C) {
    fn decode_prefix(bytes: &[u8]) -> (r: Result<((A, B, C), usize), CodecError>) {
        let (f0, at0): (A, usize) = read_field::<A>(bytes, 0)?;
        let (f1, at1): (B, usize) = read_field::<B>(bytes, at0)?;
        let (f2, at2): (C, usize) = read_field::<C>(bytes, at1)?;
        proof {
            let end0 = A::width() as int;
            let end1 = end0 + B::width();
            let end2 = end1 + C::width();
            let whole = bytes@.take(Self::width() as int);
            assert(whole.subrange(0, end0) =~= bytes@.subrange(0, end0));
            assert(whole.subrange(end0, end1) =~= bytes@.subrange(end0, end1));
            assert(whole.subrange(end1, end2) =~= bytes@.subrange(end1, end2));
        }
        Ok(((f0, f1, f2), at2))
    }
}

impl<A: BytesEncodeExt, B: BytesEncodeExt, C: BytesEncodeExt> BytesEncodeExt for (A, B, C) {
    fn encode(&self) -> (r: Result<Vec<u8>, CodecError>) {
        let mut out: Vec<u8> = Vec::new();
        write_field(&self.0, &mut out)?;
        write_field(&self.1, &mut out)?;
        write_field(&self.2, &mut out)?;
        Ok(out)
    }
}

/// A record of four fields.
impl<A: FixedLayout, B: FixedLayout, C: FixedLayout, D: FixedLayout> FixedLayout for (A, B, C, D) {
    open spec fn width() -> nat {
        A::width() + B::width() + C::width() + D::width()
    }

    open spec fn to_wire(&self) -> Seq<u8> {
        self.0.to_wire() + self.1.to_wire() + self.2.to_wire() + self.3.to_wire()
    }

    open spec fn from_wire(bytes: Seq<u8>) -> (A, B, C, D) {
        let end0 = A::width() as int;
        let end1 = end0 + B::width();
        let end2 = end1 + C::width();
        let end3 = end2 + D::width();
        (
            A::from_wire(bytes.subrange(0, end0)),
            B::from_wire(bytes.subrange(end0, end1)),
            C::from_wire(bytes.subrange(end1, end2)),
            D::from_wire(bytes.subrange(end2, end3)),
        )
    }

    proof fn lemma_wire_len(&self) {
        self.0.lemma_wire_len();
        self.1.lemma_wire_len();
        self.2.lemma_wire_len();
        self.3.lemma_wire_len();
    }

    proof fn lemma_value_round_trip(&self) {
        let end0 = A::width() as int;
        let end1 = end0 + B::width();
        let end2 = end1 + C::width();
        let end3 = end2 + D::width();
        let wire = self.to_wire();
        self.0.lemma_wire_len();
        self.1.lemma_wire_len();
        self.2.lemma_wire_len();
        self.3.lemma_wire_len();
        assert(wire.subrange(0, end0) =~= self.0.to_wire());
        self.0.lemma_value_round_trip();
        assert(wire.subrange(end0, end1) =~= self.1.to_wire());
        self.1.lemma_value_round_trip();
        assert(wire.subrange(end1, end2) =~= self.2.to_wire());
        self.2.lemma_value_round_trip();
        assert(wire.subrange(end2, end3) =~= self.3.to_wire());
        self.3.lemma_value_round_trip();
    }

    proof fn lemma_wire_round_trip(bytes: Seq<u8>) {
        let end0 = A::width() as int;
        let end1 = end0 + B::width();
        let end2 = end1 + C::width();
        let end3 = end2 + D::width();
        A::lemma_wire_round_trip(bytes.subrange(0, end0));
        B::lemma_wire_round_trip(bytes.subrange(end0, end1));
        C::lemma_wire_round_trip(bytes.subrange(end1, end2));
        D::lemma_wire_round_trip(bytes.subrange(end2, end3));
        assert(Self::from_wire(bytes).to_wire() =~= bytes);
    }
}

impl<A: BytesDecodeExt, B: BytesDecodeExt, C: BytesDecodeExt, D: BytesDecodeExt> BytesDecodeExt for (A, B, C, D) {
    fn decode_prefix(bytes: &[u8]) -> (r: Result<((A, B, C, D), usize), CodecError>) {
        let (f0, at0): (A, usize) = read_field::<A>(bytes, 0)?;
        let (f1, at1): (B, usize) = read_field::<B>(bytes, at0)?;
        let (f2, at2): (C, usize) = read_field::<C>(bytes, at1)?;
        let (f3, at3): (D, usize) = read_field::<D>(bytes, at2)?;
        proof {
            let end0 = A::width() as int;
            let end1 = end0 + B::width();
            let end2 = end1 + C::width();
            let end3 = end2 + D::width();
            let whole = bytes@.take(Self::width() as int);
            assert(whole.subrange(0, end0) =~= bytes@.subrange(0, end0));
            assert(whole.subrange(end0, end1) =~= bytes@.subrange(end0, end1));
            assert(whole.subrange(end1, end2) =~= bytes@.subrange(end1, end2));
            assert(whole.subrange(end2, end3) =~= bytes@.subrange(end2, end3));
        }
        Ok(((f0, f1, f2, f3), at3))
    }
}

impl<A: BytesEncodeExt, B: BytesEncodeExt, C: BytesEncodeExt, D: BytesEncodeExt> BytesEncodeExt for (A, B, C, D) {
    fn encode(&self) -> (r: Result<Vec<u8>, CodecError>) {
        let mut out: Vec<u8> = Vec::new();
        write_field(&self.0, &mut out)?;
        write_field(&self.1, &mut out)?;
        write_field(&self.2, &mut out)?;
        write_field(&self.3, &mut out)?;
        Ok(out)
    }
}

/// A record of five fields.
impl<A: FixedLayout, B: FixedLayout, C: FixedLayout, D: FixedLayout, E: FixedLayout> FixedLayout for (A, B, C, D, E) {
    open spec fn width() -> nat {
        A::width() + B::width() + C::width() + D::width() + E::width()
    }

    open spec fn to_wire(&self) -> Seq<u8> {
        self.0.to_wire() + self.1.to_wire() + self.2.to_wire() + self.3.to_wire() + self.4.to_wire()
    }

    open spec fn from_wire(bytes: Seq<u8>) -> (A, B, C, D, E) {
        let end0 = A::width() as int;
        let end1 = end0 + B::width();
        let end2 = end1 + C::width();
        let end3 = end2 + D::width();
        let end4 = end3 + E::width();
        (
            A::from_wire(bytes.subrange(0, end0)),
            B::from_wire(bytes.subrange(end0, end1)),
            C::from_wire(bytes.subrange(end1, end2)),
            D::from_wire(bytes.subrange(end2, end3)),
            E::from_wire(bytes.subrange(end3, end4)),
        )
    }

    proof fn lemma_wire_len(&self) {
        self.0.lemma_wire_len();
        self.1.lemma_wire_len();
        self.2.lemma_wire_len();
        self.3.lemma_wire_len();
        self.4.lemma_wire_len();
    }

    proof fn lemma_value_round_trip(&self) {
        let end0 = A::width() as int;
        let end1 = end0 + B::width();
        let end2 = end1 + C::width();
        let end3 = end2 + D::width();
        let end4 = end3 + E::width();
        let wire = self.to_wire();
        self.0.lemma_wire_len();
        self.1.lemma_wire_len();
        self.2.lemma_wire_len();
        self.3.lemma_wire_len();
        self.4.lemma_wire_len();
        assert(wire.subrange(0, end0) =~= self.0.to_wire());
        self.0.lemma_value_round_trip();
        assert(wire.subrange(end0, end1) =~= self.1.to_wire());
        self.1.lemma_value_round_trip();
        assert(wire.subrange(end1, end2) =~= self.2.to_wire());
        self.2.lemma_value_round_trip();
        assert(wire.subrange(end2, end3) =~= self.3.to_wire());
        self.3.lemma_value_round_trip();
        assert(wire.subrange(end3, end4) =~= self.4.to_wire());
        self.4.lemma_value_round_trip();
    }

    proof fn lemma_wire_round_trip(bytes: Seq<u8>) {
        let end0 = A::width() as int;
        let end1 = end0 + B::width();
        let end2 = end1 + C::width();
        let end3 = end2 + D::width();
        let end4 = end3 + E::width();
        A::lemma_wire_round_trip(bytes.subrange(0, end0));
        B::lemma_wire_round_trip(bytes.subrange(end0, end1));
        C::lemma_wire_round_trip(bytes.subrange(end1, end2));
        D::lemma_wire_round_trip(bytes.subrange(end2, end3));
        E::lemma_wire_round_trip(bytes.subrange(end3, end4));
        assert(Self::from_wire(bytes).to_wire() =~= bytes);
    }
}

impl<A: BytesDecodeExt, B: BytesDecodeExt, C: BytesDecodeExt, D: BytesDecodeExt, E: BytesDecodeExt> BytesDecodeExt for (A, B, C, D, E) {
    fn decode_prefix(bytes: &[u8]) -> (r: Result<((A, B, C, D, E), usize), CodecError>) {
        let (f0, at0): (A, usize) = read_field::<A>(bytes, 0)?;
        let (f1, at1): (B, usize) = read_field::<B>(bytes, at0)?;
        let (f2, at2): (C, usize) = read_field::<C>(bytes, at1)?;
        let (f3, at3): (D, usize) = read_field::<D>(bytes, at2)?;
        let (f4, at4): (E, usize) = read_field::<E>(bytes, at3)?;
        proof {
            let end0 = A::width() as int;
            let end1 = end0 + B::width();
            let end2 = end1 + C::width();
            let end3 = end2 + D::width();
            let end4 = end3 + E::width();
            let whole = bytes@.take(Self::width() as int);
            assert(whole.subrange(0, end0) =~= bytes@.subrange(0, end0));
            assert(whole.subrange(end0, end1) =~= bytes@.subrange(end0, end1));
            assert(whole.subrange(end1, end2) =~= bytes@.subrange(end1, end2));
            assert(whole.subrange(end2, end3) =~= bytes@.subrange(end2, end3));
            assert(whole.subrange(end3, end4) =~= bytes@.subrange(end3, end4));
        }
        Ok(((f0, f1, f2, f3, f4), at4))
    }
}

impl<A: BytesEncodeExt, B: BytesEncodeExt, C: BytesEncodeExt, D: BytesEncodeExt, E: BytesEncodeExt> BytesEncodeExt for (A, B, C, D, E) {
    fn encode(&self) -> (r: Result<Vec<u8>, CodecError>) {
        let mut out: Vec<u8> = Vec::new();
        write_field(&self.0, &mut out)?;
        write_field(&self.1, &mut out)?;
        write_field(&self.2, &mut out)?;
        write_field(&self.3, &mut out)?;
        write_field(&self.4, &mut out)?;
        Ok(out)
    }
}

/// A record of six fields.
impl<A: FixedLayout, B: FixedLayout, C: FixedLayout, D: FixedLayout, E: FixedLayout, F: FixedLayout> FixedLayout for (A, B, C, D, E, F) {
    open spec fn width() -> nat {
        A::width() + B::width() + C::width() + D::width() + E::width() + F::width()
    }

    open spec fn to_wire(&self) -> Seq<u8> {
        self.0.to_wire() + self.1.to_wire() + self.2.to_wire() + self.3.to_wire() + self.4.to_wire() + self.5.to_wire()
    }

    open spec fn from_wire(bytes: Seq<u8>) -> (A, B, C, D, E, F) {
        let end0 = A::width() as int;
        let end1 = end0 + B::width();
        let end2 = end1 + C::width();
        let end3 = end2 + D::width();
        let end4 = end3 + E::width();
        let end5 = end4 + F::width();
        (
            A::from_wire(bytes.subrange(0, end0)),
            B::from_wire(bytes.subrange(end0, end1)),
            C::from_wire(bytes.subrange(end1, end2)),
            D::from_wire(bytes.subrange(end2, end3)),
            E::from_wire(bytes.subrange(end3, end4)),
            F::from_wire(bytes.subrange(end4, end5)),
        )
    }

    proof fn lemma_wire_len(&self) {
        self.0.lemma_wire_len();
        self.1.lemma_wire_len();
        self.2.lemma_wire_len();
        self.3.lemma_wire_len();
        self.4.lemma_wire_len();
        self.5.lemma_wire_len();
    }

    proof fn lemma_value_round_trip(&self) {
        let end0 = A::width() as int;
        let end1 = end0 + B::width();
        let end2 = end1 + C::width();
        let end3 = end2 + D::width();
        let end4 = end3 + E::width();
        let end5 = end4 + F::width();
        let wire = self.to_wire();
        self.0.lemma_wire_len();
        self.1.lemma_wire_len();
        self.2.lemma_wire_len();
        self.3.lemma_wire_len();
        self.4.lemma_wire_len();
        self.5.lemma_wire_len();
        assert(wire.subrange(0, end0) =~= self.0.to_wire());
        self.0.lemma_value_round_trip();
        assert(wire.subrange(end0, end1) =~= self.1.to_wire());
        self.1.lemma_value_round_trip();
        assert(wire.subrange(end1, end2) =~= self.2.to_wire());
        self.2.lemma_value_round_trip();
        assert(wire.subrange(end2, end3) =~= self.3.to_wire());
        self.3.lemma_value_round_trip();
        assert(wire.subrange(end3, end4) =~= self.4.to_wire());
        self.4.lemma_value_round_trip();
        assert(wire.subrange(end4, end5) =~= self.5.to_wire());
        self.5.lemma_value_round_trip();
    }

    proof fn lemma_wire_round_trip(bytes: Seq<u8>) {
        let end0 = A::width() as int;
        let end1 = end0 + B::width();
        let end2 = end1 + C::width();
        let end3 = end2 + D::width();
        let end4 = end3 + E::width();
        let end5 = end4 + F::width();
        A::lemma_wire_round_trip(bytes.subrange(0, end0));
        B::lemma_wire_round_trip(bytes.subrange(end0, end1));
        C::lemma_wire_round_trip(bytes.subrange(end1, end2));
        D::lemma_wire_round_trip(bytes.subrange(end2, end3));
        E::lemma_wire_round_trip(bytes.subrange(end3, end4));
        F::lemma_wire_round_trip(bytes.subrange(end4, end5));
        assert(Self::from_wire(bytes).to_wire() =~= bytes);
    }
}

impl<A: BytesDecodeExt, B: BytesDecodeExt, C: BytesDecodeExt, D: BytesDecodeExt, E: BytesDecodeExt, F: BytesDecodeExt> BytesDecodeExt for (A, B, C, D, E, F) {
    fn decode_prefix(bytes: &[u8]) -> (r: Result<((A, B, C, D, E, F), usize), CodecError>) {
        let (f0, at0): (A, usize) = read_field::<A>(bytes, 0)?;
        let (f1, at1): (B, usize) = read_field::<B>(bytes, at0)?;
        let (f2, at2): (C, usize) = read_field::<C>(bytes, at1)?;
        let (f3, at3): (D, usize) = read_field::<D>(bytes, at2)?;
        let (f4, at4): (E, usize) = read_field::<E>(bytes, at3)?;
        let (f5, at5): (F, usize) = read_field::<F>(bytes, at4)?;
        proof {
            let end0 = A::width() as int;
            let end1 = end0 + B::width();
            let end2 = end1 + C::width();
            let end3 = end2 + D::width();
            let end4 = end3 + E::width();
            let end5 = end4 + F::width();
            let whole = bytes@.take(Self::width() as int);
            assert(whole.subrange(0, end0) =~= bytes@.subrange(0, end0));
            assert(whole.subrange(end0, end1) =~= bytes@.subrange(end0, end1));
            assert(whole.subrange(end1, end2) =~= bytes@.subrange(end1, end2));
            assert(whole.subrange(end2, end3) =~= bytes@.subrange(end2, end3));
            assert(whole.subrange(end3, end4) =~= bytes@.subrange(end3, end4));
            assert(whole.subrange(end4, end5) =~= bytes@.subrange(end4, end5));
        }
        Ok(((f0, f1, f2, f3, f4, f5), at5))
    }
}

impl<A: BytesEncodeExt, B: BytesEncodeExt, C: BytesEncodeExt, D: BytesEncodeExt, E: BytesEncodeExt, F: BytesEncodeExt> BytesEncodeExt for (A, B, C, D, E, F) {
    fn encode(&self) -> (r: Result<Vec<u8>, CodecError>) {
        let mut out: Vec<u8> = Vec::new();
        write_field(&self.0, &mut out)?;
        write_field(&self.1, &mut out)?;
        write_field(&self.2, &mut out)?;
        write_field(&self.3, &mut out)?;
        write_field(&self.4, &mut out)?;
        write_field(&self.5, &mut out)?;
        Ok(out)
    }
}

} // verus!
