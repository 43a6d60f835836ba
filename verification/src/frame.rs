use vstd::prelude::*;
use crate::error::Error;

verus! {

broadcast use vstd::array::group_array_axioms;

/// A CAN arbitration identifier, tagged by width. The two widths are kept
/// strictly apart: no numeric coercion between them happens anywhere.
#[derive(Debug, Clone, Copy, PartialEq, Eq)]
#[verifier::ext_equal]
pub enum Id {
    /// An 11-bit identifier; well-formed when at most 0x7FF.
    Standard(u16),
    /// A 29-bit identifier; well-formed when at most 0x1FFF_FFFF.
    Extended(u32),
}

impl Id {
    /// The identifier value fits its tag's bit width.
    pub open spec fn wf(self) -> bool {
        match self {
            Id::Standard(s) => s <= 0x7FF,
            Id::Extended(e) => e <= 0x1FFF_FFFF,
        }
    }
}

/// A chip-agnostic CAN frame: tagged identifier, data length code,
/// payload, and remote-request flag.
///
/// Invariant (`wf`): the identifier fits its tag's width, `dlc <= 8`, and
/// every payload byte at or beyond `dlc` is zero. `new` and `new_remote`
/// establish it; decoding a receive buffer re-establishes it.
#[derive(Debug, Clone, Copy, PartialEq, Eq)]
#[verifier::ext_equal]
pub struct CanFrame {
    pub id: Id,
    pub dlc: u8,
    pub data: [u8; 8],
    pub rtr: bool,
}

impl CanFrame {
    /// Well-formedness of a frame; see the type's invariant.
    pub open spec fn wf(self) -> bool {
        self.id.wf() && self.dlc <= 8 && (forall|i: int|
            self.dlc <= i < 8 ==> self.data@[i] == 0)
    }

    /// Builds a data frame. Fails exactly when the payload is longer than
    /// 8 bytes or the identifier exceeds its tag's bit width; otherwise the
    /// frame carries the payload verbatim, zero-padded to 8 bytes.
    pub fn new(id: Id, data: &[u8]) -> (r: Option<CanFrame>)
        ensures
            r is Some <==> (id.wf() && data@.len() <= 8),
            r matches Some(f) ==> f.wf() && f.id == id && f.dlc == data@.len() && f.rtr
                == false && (forall|i: int| 0 <= i < data@.len() ==> f.data@[i] == data@[i]),
    {
        let n = data.len();
        if n > 8 {
            return None;
        }
        let ok = match id {
            Id::Standard(s) => s <= 0x7FF,
            Id::Extended(e) => e <= 0x1FFF_FFFF,
        };
        if !ok {
            return None;
        }
        let mut buf: [u8; 8] = [0; 8];
        let mut i: usize = 0;
        while i < n
            invariant
                i <= n,
                n == data@.len(),
                n <= 8,
                forall|j: int| 0 <= j < i ==> buf@[j] == data@[j],
                forall|j: int| i <= j < 8 ==> buf@[j] == 0,
            decreases n - i,
        {
            buf[i] = data[i];
            i += 1;
        }
        Some(CanFrame { id, dlc: n as u8, data: buf, rtr: false })
    }

    /// Builds a remote-request frame: no payload bytes, only a length code.
    /// Fails exactly when `dlc` exceeds 8 or the identifier exceeds its
    /// tag's bit width.
    pub fn new_remote(id: Id, dlc: u8) -> (r: Option<CanFrame>)
        ensures
            r is Some <==> (id.wf() && dlc <= 8),
            r matches Some(f) ==> f.wf() && f.id == id && f.dlc == dlc && f.rtr == true
                && (forall|i: int| 0 <= i < 8 ==> f.data@[i] == 0),
    {
        if dlc > 8 {
            return None;
        }
        let ok = match id {
            Id::Standard(s) => s <= 0x7FF,
            Id::Extended(e) => e <= 0x1FFF_FFFF,
        };
        if !ok {
            return None;
        }
        let buf: [u8; 8] = [0; 8];
        Some(CanFrame { id, dlc, data: buf, rtr: true })
    }
}

/// SIDH byte of the buffer layout: the identifier's top eight bits of its
/// standard part.
pub open spec fn spec_sidh(id: Id) -> u8 {
    match id {
        Id::Standard(s) => (s >> 3) as u8,
        Id::Extended(e) => (e >> 21) as u8,
    }
}

/// SIDL byte: low three standard-part bits in bits 7..=5, the extended-ID
/// flag in bit 3, and for extended identifiers bits 17..=16 in bits 1..=0.
pub open spec fn spec_sidl(id: Id) -> u8 {
    match id {
        Id::Standard(s) => ((s & 0x7) << 5) as u8,
        Id::Extended(e) => ((((e >> 18) & 0x7) << 5) | 0x8 | ((e >> 16) & 0x3)) as u8,
    }
}

/// EID8 byte: extended identifier bits 15..=8; zero for standard frames.
pub open spec fn spec_eid8(id: Id) -> u8 {
    match id {
        Id::Standard(_) => 0,
        Id::Extended(e) => (e >> 8) as u8,
    }
}

/// EID0 byte: extended identifier bits 7..=0; zero for standard frames.
pub open spec fn spec_eid0(id: Id) -> u8 {
    match id {
        Id::Standard(_) => 0,
        Id::Extended(e) => e as u8,
    }
}

/// DLC byte: payload length in bits 3..=0, remote-request flag in bit 6.
pub open spec fn spec_dlc_byte(f: CanFrame) -> u8 {
    if f.rtr {
        f.dlc | 0x40
    } else {
        f.dlc
    }
}

/// The 13-byte transmit/receive buffer image of a frame: SIDH, SIDL, EID8,
/// EID0, DLC, then the eight payload byte registers verbatim.
pub open spec fn spec_encode(f: CanFrame) -> Seq<u8> {
    seq![spec_sidh(f.id), spec_sidl(f.id), spec_eid8(f.id), spec_eid0(f.id), spec_dlc_byte(f)]
        + f.data@
}

/// The identifier bytes of a buffer are well laid out: every bit the
/// encoder never sets is clear. Extended frames (flag bit 3 of SIDL set)
/// must have SIDL bits 4 and 2 clear; standard frames must have SIDL bits
/// 4, 2, 1, 0 clear and both extended-identifier bytes zero.
pub open spec fn buf_id_wf(b: Seq<u8>) -> bool {
    if b[1] & 0x08 != 0 {
        b[1] & 0x14 == 0
    } else {
        b[1] & 0x17 == 0 && b[2] == 0 && b[3] == 0
    }
}

/// The identifier a well-laid-out buffer denotes, rebuilt strictly from the
/// extended-ID flag bit.
pub open spec fn spec_decode_id(b: Seq<u8>) -> Id {
    if b[1] & 0x08 != 0 {
        Id::Extended(
            ((b[0] as u32) << 21) | (((b[1] as u32) >> 5) << 18) | (((b[1] as u32) & 0x3) << 16)
                | ((b[2] as u32) << 8) | (b[3] as u32),
        )
    } else {
        Id::Standard(((b[0] as u16) << 3) | ((b[1] as u16) >> 5))
    }
}

/// The payload array a buffer decodes to: bytes up to the length code are
/// taken verbatim, bytes at and beyond it are zero whatever the buffer
/// holds there.
pub open spec fn spec_decode_data(b: Seq<u8>) -> [u8; 8] {
    let n = b[4] & 0x0F;
    [
        if 0 < n {
            b[5]
        } else {
            0u8
        },
        if 1 < n {
            b[6]
        } else {
            0u8
        },
        if 2 < n {
            b[7]
        } else {
            0u8
        },
        if 3 < n {
            b[8]
        } else {
            0u8
        },
        if 4 < n {
            b[9]
        } else {
            0u8
        },
        if 5 < n {
            b[10]
        } else {
            0u8
        },
        if 6 < n {
            b[11]
        } else {
            0u8
        },
        if 7 < n {
            b[12]
        } else {
            0u8
        },
    ]
}

/// The frame a 13-byte buffer denotes: `None` when either validation
/// fails (identifier layout bits, or a length code above 8), otherwise the
/// frame with the rebuilt identifier, the length and remote flag from the
/// DLC byte, and the zero-padded payload.
pub open spec fn spec_decode(b: Seq<u8>) -> Option<CanFrame> {
    if !buf_id_wf(b) {
        None
    } else if b[4] & 0x0F > 8 {
        None
    } else {
        Some(
            CanFrame {
                id: spec_decode_id(b),
                dlc: b[4] & 0x0F,
                data: spec_decode_data(b),
                rtr: b[4] & 0x40 != 0,
            },
        )
    }
}

/// Writes a frame into the peripheral's 13-byte buffer layout.
pub fn encode(frame: &CanFrame) -> (buf: [u8; 13])
    requires
        frame.wf(),
    ensures
        buf@ == spec_encode(*frame),
{
    let mut buf: [u8; 13] = [0; 13];
    buf[0] = match frame.id {
        Id::Standard(s) => #[verifier::truncate] ((s >> 3) as u8),
        Id::Extended(e) => #[verifier::truncate] ((e >> 21) as u8),
    };
    buf[1] = match frame.id {
        Id::Standard(s) => #[verifier::truncate] (((s & 0x7) << 5) as u8),
        Id::Extended(e) => #[verifier::truncate] (((((e >> 18) & 0x7) << 5) | 0x8 | ((e >> 16)
            & 0x3)) as u8),
    };
    buf[2] = match frame.id {
        Id::Standard(_) => 0,
        Id::Extended(e) => #[verifier::truncate] ((e >> 8) as u8),
    };
    buf[3] = match frame.id {
        Id::Standard(_) => 0,
        Id::Extended(e) => #[verifier::truncate] (e as u8),
    };
    buf[4] = if frame.rtr {
        frame.dlc | 0x40
    } else {
        frame.dlc
    };
    let mut i: usize = 0;
    while i < 8
        invariant
            i <= 8,
            buf@.len() == 13,
            buf@[0] == spec_sidh(frame.id),
            buf@[1] == spec_sidl(frame.id),
            buf@[2] == spec_eid8(frame.id),
            buf@[3] == spec_eid0(frame.id),
            buf@[4] == spec_dlc_byte(*frame),
            forall|j: int| 0 <= j < i ==> buf@[5 + j] == frame.data@[j],
        decreases 8 - i,
    {
        buf[5 + i] = frame.data[i];
        i += 1;
    }
    proof {
        assert(buf@ =~= spec_encode(*frame));
    }
    buf
}

/// Reads a frame back out of the peripheral's 13-byte buffer layout.
///
/// Validation is total: a length code above 8 fails with `InvalidDlc`
/// whatever the rest of the buffer holds, a buffer whose identifier bytes
/// carry bits the encoder never sets fails with `InvalidFrameId`, and every
/// other buffer decodes to a well-formed frame whose payload tail is zeroed
/// regardless of the buffer's contents.
pub fn decode<E>(buf: &[u8; 13]) -> (r: Result<CanFrame, Error<E>>)
    ensures
        buf@[4] & 0x0F > 8 ==> r == Err::<CanFrame, Error<E>>(Error::InvalidDlc),
        buf@[4] & 0x0F <= 8 && !buf_id_wf(buf@) ==> r == Err::<CanFrame, Error<E>>(
            Error::InvalidFrameId,
        ),
        spec_decode(buf@) matches Some(f) ==> r == Ok::<CanFrame, Error<E>>(f) && f.wf(),
{
    let dlc = buf[4] & 0x0F;
    if dlc > 8 {
        return Err(Error::InvalidDlc);
    }
    let sidl = buf[1];
    if sidl & 0x08 != 0 {
        if sidl & 0x14 != 0 {
            return Err(Error::InvalidFrameId);
        }
    } else {
        if sidl & 0x17 != 0 || buf[2] != 0 || buf[3] != 0 {
            return Err(Error::InvalidFrameId);
        }
    }
    let id = if sidl & 0x08 != 0 {
        let b0 = buf[0];
        let b2 = buf[2];
        let b3 = buf[3];
        let e: u32 = ((b0 as u32) << 21) | (((sidl as u32) >> 5) << 18) | (((sidl as u32) & 0x3)
            << 16) | ((b2 as u32) << 8) | (b3 as u32);
        proof {
            assert(((b0 as u32) << 21) | (((sidl as u32) >> 5) << 18) | (((sidl as u32) & 0x3)
                << 16) | ((b2 as u32) << 8) | (b3 as u32) <= 0x1FFF_FFFF) by (bit_vector);
        }
        Id::Extended(e)
    } else {
        let b0 = buf[0];
        let s: u16 = ((b0 as u16) << 3) | ((sidl as u16) >> 5);
        proof {
            assert((((b0 as u16) << 3) | ((sidl as u16) >> 5)) <= 0x7FF) by (bit_vector);
        }
        Id::Standard(s)
    };
    let rtr = buf[4] & 0x40 != 0;
    let mut data: [u8; 8] = [0; 8];
    let mut i: usize = 0;
    while i < dlc as usize
        invariant
            i <= dlc as usize,
            dlc <= 8,
            forall|j: int| 0 <= j < i ==> data@[j] == buf@[5 + j],
            forall|j: int| i <= j < 8 ==> data@[j] == 0,
        decreases dlc as usize - i,
    {
        data[i] = buf[5 + i];
        i += 1;
    }
    let f = CanFrame { id, dlc, data, rtr };
    proof {
        assert(f.data =~= spec_decode_data(buf@));
        assert(f =~= spec_decode(buf@)->Some_0);
    }
    Ok(f)
}

/// Decoding inverts encoding: every well-formed frame's encoded buffer
/// passes both decode validations and decodes to that frame itself. With
/// `decode`'s and `encode`'s own contracts this yields
/// `decode(encode(f)) == Ok(f)`.
pub proof fn lemma_decode_inverts_encode(f: CanFrame)
    requires
        f.wf(),
    ensures
        spec_decode(spec_encode(f)) == Some(f),
{
    let b = spec_encode(f);
    let d = f.dlc;
    let r = f.rtr;
    assert(b[4] == spec_dlc_byte(f));
    assert(if r {
        (d | 0x40) & 0x0F == d && (d | 0x40) & 0x40 != 0
    } else {
        d & 0x0F == d && d & 0x40 == 0
    }) by (bit_vector)
        requires
            d <= 8,
    ;
    match f.id {
        Id::Standard(s) => {
            assert({
                &&& (((s & 0x7) << 5) as u8) & 0x08 == 0
                &&& (((s & 0x7) << 5) as u8) & 0x17 == 0
                &&& (((((s >> 3) as u8) as u16) << 3) | (((((s & 0x7) << 5) as u8) as u16) >> 5))
                    == s
            }) by (bit_vector)
                requires
                    s <= 0x7FF,
            ;
            assert(buf_id_wf(b));
            assert(spec_decode_id(b) == f.id);
        },
        Id::Extended(e) => {
            assert({
                &&& (((((e >> 18) & 0x7) << 5) | 0x8 | ((e >> 16) & 0x3)) as u8) & 0x08 != 0
                &&& (((((e >> 18) & 0x7) << 5) | 0x8 | ((e >> 16) & 0x3)) as u8) & 0x14 == 0
                &&& ((((e >> 21) as u8) as u32) << 21) | ((((((((e >> 18) & 0x7) << 5) | 0x8 | ((e
                    >> 16) & 0x3)) as u8) as u32) >> 5) << 18) | ((((((((e >> 18) & 0x7) << 5) | 0x8
                    | ((e >> 16) & 0x3)) as u8) as u32) & 0x3) << 16) | ((((e >> 8) as u8) as u32)
                    << 8) | ((e as u8) as u32) == e
            }) by (bit_vector)
                requires
                    e <= 0x1FFF_FFFF,
            ;
            assert(buf_id_wf(b));
            assert(spec_decode_id(b) == f.id);
        },
    }
    assert(spec_decode_data(b) =~= f.data);
    assert(spec_decode(b)->Some_0 =~= f);
}

} // verus!
