//! World-stable 128-bit identifiers: a 64-bit world namespace above a 64-bit counter.

use vstd::prelude::*;
use vstd::string::StringExecFns;

verus! {

/// The packed value of an identifier with the given parts.
pub open spec fn packed_id(world_namespace: u64, counter: u64) -> u128 {
    (world_namespace as nat * 0x1_0000_0000_0000_0000 + counter as nat) as u128
}

pub open spec fn id_namespace(value: u128) -> u64 {
    (value as nat / 0x1_0000_0000_0000_0000) as u64
}

pub open spec fn id_counter(value: u128) -> u64 {
    (value as nat % 0x1_0000_0000_0000_0000) as u64
}

/// Lower-case hexadecimal digit of a nibble.
pub open spec fn hex_digit_spec(n: u64) -> u8 {
    if n < 10 { (0x30 + n) as u8 } else { (0x57 + n) as u8 }
}

/// The sixteen zero-padded lower-case hexadecimal digits of `v`, most significant first.
pub open spec fn hex16_spec(v: u64) -> Seq<u8> {
    Seq::new(16, |i: int| hex_digit_spec(((v as nat / pow16((15 - i) as nat)) % 16) as u64))
}

pub open spec fn pow16(e: nat) -> nat
    decreases e,
{
    if e == 0 { 1 } else { 16 * pow16((e - 1) as nat) }
}

/// The display text of an identifier: `{namespace:016x}:{counter:016x}`.
pub open spec fn id_display(world_namespace: u64, counter: u64) -> Seq<char> {
    (hex16_spec(world_namespace) + seq![0x3au8] + hex16_spec(counter)).map_values(|b: u8| b as char)
}

pub proof fn lemma_pack_parts(world_namespace: u64, counter: u64)
    ensures
        id_namespace(packed_id(world_namespace, counter)) == world_namespace,
        id_counter(packed_id(world_namespace, counter)) == counter,
{
    let n = world_namespace as nat;
    let c = counter as nat;
    assert(n * 0x1_0000_0000_0000_0000 + c < 0x1_0000_0000_0000_0000 * 0x1_0000_0000_0000_0000) by (nonlinear_arith)
        requires n < 0x1_0000_0000_0000_0000, c < 0x1_0000_0000_0000_0000;
    assert((n * 0x1_0000_0000_0000_0000 + c) / 0x1_0000_0000_0000_0000 == n) by (nonlinear_arith)
        requires c < 0x1_0000_0000_0000_0000;
    assert((n * 0x1_0000_0000_0000_0000 + c) % 0x1_0000_0000_0000_0000 == c) by (nonlinear_arith)
        requires c < 0x1_0000_0000_0000_0000;
}

fn pack_id(world_namespace: u64, counter: u64) -> (r: u128)
    ensures
        r == packed_id(world_namespace, counter),
{
    let r = ((world_namespace as u128) << 64u128) | (counter as u128);
    assert(r == (world_namespace as u128) * 0x1_0000_0000_0000_0000u128 + (counter as u128)) by (bit_vector)
        requires r == ((world_namespace as u128) << 64u128) | (counter as u128);
    r
}

fn unpack_namespace(value: u128) -> (r: u64)
    ensures
        r == id_namespace(value),
{
    let r = (value >> 64u128) as u64;
    assert(r == value / 0x1_0000_0000_0000_0000u128) by (bit_vector)
        requires r == (value >> 64u128) as u64;
    r
}

fn unpack_counter(value: u128) -> (r: u64)
    ensures
        r == id_counter(value),
{
    let r = value as u64;
    assert(r == value % 0x1_0000_0000_0000_0000u128) by (bit_vector)
        requires r == value as u64;
    r
}

fn hex_digit(n: u64) -> (r: u8)
    requires
        n < 16,
    ensures
        r == hex_digit_spec(n),
{
    if n < 10 { 0x30 + n as u8 } else { 0x57 + n as u8 }
}

/// Appends the sixteen hexadecimal digits of `v` to `out`.
fn push_hex16(out: &mut Vec<u8>, v: u64)
    ensures
        final(out)@ == old(out)@ + hex16_spec(v),
{
    let ghost start = old(out)@;
    let mut i: usize = 0;
    let mut shift: u64 = 60;
    while i < 16
        invariant
            i <= 16,
            shift == 60 - 4 * i || (i == 16),
            out@.len() == start.len() + i,
            out@.subrange(0, start.len() as int) == start,
            forall|j: int| 0 <= j < i ==> out@[start.len() + j] == hex16_spec(v)[j],
        decreases 16 - i,
    {
        let nibble = (v >> shift) & 0xf;
        proof {
            lemma_nibble(v, i as nat, shift);
        }
        out.push(hex_digit(nibble));
        i = i + 1;
        if i < 16 {
            shift = shift - 4;
        }
    }
    assert(out@ =~= start + hex16_spec(v));
}

proof fn lemma_pow16_shift(e: nat)
    requires
        e < 16,
    ensures
        pow16(e) == vstd::arithmetic::power2::pow2(4 * e),
    decreases e,
{
    vstd::arithmetic::power2::lemma2_to64();
    if e > 0 {
        lemma_pow16_shift((e - 1) as nat);
        vstd::arithmetic::power2::lemma_pow2_adds(4 * ((e - 1) as nat), 4);
    }
}

proof fn lemma_nibble(v: u64, i: nat, shift: u64)
    requires
        i < 16,
        shift == 60 - 4 * i,
    ensures
        (v >> shift) & 0xf < 16,
        ((v >> shift) & 0xf) as nat == (v as nat / pow16((15 - i) as nat)) % 16,
{
    let e = (15 - i) as nat;
    lemma_pow16_shift(e);
    assert(shift == 4 * e);
    vstd::bits::lemma_u64_shr_is_div(v, shift);
    assert((v >> shift) & 0xf == (v >> shift) % 16) by (bit_vector);
    assert((v >> shift) & 0xf < 16) by (bit_vector);
}

/// A byte that occurs in an identifier's display text: a lower-case
/// hexadecimal digit or the `:` separator.
pub open spec fn id_text_byte(b: u8) -> bool {
    (0x30 <= b <= 0x39) || (0x61 <= b <= 0x66) || b == 0x3a
}

/// The one-character text of a display byte.
fn id_char_text(b: u8) -> (r: &'static str)
    requires
        id_text_byte(b),
    ensures
        r@ == seq![b as char],
{
    match b {
        0x30 => {
            proof {
                reveal_strlit("0");
            }
            "0"
        },
        0x31 => {
            proof {
                reveal_strlit("1");
            }
            "1"
        },
        0x32 => {
            proof {
                reveal_strlit("2");
            }
            "2"
        },
        0x33 => {
            proof {
                reveal_strlit("3");
            }
            "3"
        },
        0x34 => {
            proof {
                reveal_strlit("4");
            }
            "4"
        },
        0x35 => {
            proof {
                reveal_strlit("5");
            }
            "5"
        },
        0x36 => {
            proof {
                reveal_strlit("6");
            }
            "6"
        },
        0x37 => {
            proof {
                reveal_strlit("7");
            }
            "7"
        },
        0x38 => {
            proof {
                reveal_strlit("8");
            }
            "8"
        },
        0x39 => {
            proof {
                reveal_strlit("9");
            }
            "9"
        },
        0x61 => {
            proof {
                reveal_strlit("a");
            }
            "a"
        },
        0x62 => {
            proof {
                reveal_strlit("b");
            }
            "b"
        },
        0x63 => {
            proof {
                reveal_strlit("c");
            }
            "c"
        },
        0x64 => {
            proof {
                reveal_strlit("d");
            }
            "d"
        },
        0x65 => {
            proof {
                reveal_strlit("e");
            }
            "e"
        },
        0x66 => {
            proof {
                reveal_strlit("f");
            }
            "f"
        },
        _ => {
            proof {
                reveal_strlit(":");
            }
            ":"
        },
    }
}

/// The text spelled by display bytes, one character per byte.
fn id_text_from(bytes: &Vec<u8>) -> (r: String)
    requires
        forall|i: int| 0 <= i < bytes@.len() ==> id_text_byte(#[trigger] bytes@[i]),
    ensures
        r@ == bytes@.map_values(|b: u8| b as char),
{
    let mut text = String::new();
    let mut i: usize = 0;
    while i < bytes.len()
        invariant
            i <= bytes@.len(),
            forall|k: int| 0 <= k < bytes@.len() ==> id_text_byte(#[trigger] bytes@[k]),
            text@ == bytes@.subrange(0, i as int).map_values(|b: u8| b as char),
        decreases bytes.len() - i,
    {
        let piece = id_char_text(bytes[i]);
        text.append(piece);
        assert(bytes@.subrange(0, i + 1).map_values(|b: u8| b as char) =~= bytes@.subrange(0, i as int).map_values(
            |b: u8| b as char,
        ) + seq![bytes@[i as int] as char]);
        i = i + 1;
    }
    assert(bytes@.subrange(0, i as int) =~= bytes@);
    text
}

proof fn lemma_hex_digit_is_text(n: u64)
    requires
        n < 16,
    ensures
        id_text_byte(hex_digit_spec(n)),
{
}

fn display_id(world_namespace: u64, counter: u64) -> (r: String)
    ensures
        r@ == id_display(world_namespace, counter),
{
    let mut bytes: Vec<u8> = Vec::new();
    push_hex16(&mut bytes, world_namespace);
    bytes.push(0x3a);
    push_hex16(&mut bytes, counter);
    assert(bytes@ =~= hex16_spec(world_namespace) + seq![0x3au8] + hex16_spec(counter));
    assert forall|i: int| 0 <= i < bytes@.len() implies id_text_byte(#[trigger] bytes@[i]) by {
        if i < 16 {
            lemma_hex_digit_is_text(((world_namespace as nat / pow16((15 - i) as nat)) % 16) as u64);
        } else if i > 16 {
            lemma_hex_digit_is_text(((counter as nat / pow16((15 - (i - 17)) as nat)) % 16) as u64);
        }
    }
    id_text_from(&bytes)
}

#[derive(Clone, Copy, Debug, Default, PartialEq, Eq, Structural, Hash, PartialOrd, Ord)]
pub struct WorldId(pub u128);

impl WorldId {
    pub fn new(world_namespace: u64, counter: u64) -> (r: Self)
        ensures
            r.0 == packed_id(world_namespace, counter),
            id_namespace(r.0) == world_namespace,
            id_counter(r.0) == counter,
    {
        proof {
            lemma_pack_parts(world_namespace, counter);
        }
        WorldId(pack_id(world_namespace, counter))
    }

    pub fn world_namespace(self) -> (r: u64)
        ensures
            r == id_namespace(self.0),
    {
        unpack_namespace(self.0)
    }

    pub fn counter(self) -> (r: u64)
        ensures
            r == id_counter(self.0),
    {
        unpack_counter(self.0)
    }

    pub fn as_u128(self) -> (r: u128)
        ensures
            r == self.0,
    {
        self.0
    }

    /// `{namespace:016x}:{counter:016x}`.
    pub fn to_string(&self) -> (r: String)
        ensures
            r@ == id_display(id_namespace(self.0), id_counter(self.0)),
    {
        display_id(self.world_namespace(), self.counter())
    }
}

#[derive(Clone, Copy, Debug, Default, PartialEq, Eq, Structural, Hash, PartialOrd, Ord)]
pub struct AccountId(pub u128);

impl AccountId {
    pub fn new(world_namespace: u64, counter: u64) -> (r: Self)
        ensures
            r.0 == packed_id(world_namespace, counter),
            id_namespace(r.0) == world_namespace,
            id_counter(r.0) == counter,
    {
        proof {
            lemma_pack_parts(world_namespace, counter);
        }
        AccountId(pack_id(world_namespace, counter))
    }

    pub fn world_namespace(self) -> (r: u64)
        ensures
            r == id_namespace(self.0),
    {
        unpack_namespace(self.0)
    }

    pub fn counter(self) -> (r: u64)
        ensures
            r == id_counter(self.0),
    {
        unpack_counter(self.0)
    }

    pub fn as_u128(self) -> (r: u128)
        ensures
            r == self.0,
    {
        self.0
    }

    /// `{namespace:016x}:{counter:016x}`.
    pub fn to_string(&self) -> (r: String)
        ensures
            r@ == id_display(id_namespace(self.0), id_counter(self.0)),
    {
        display_id(self.world_namespace(), self.counter())
    }
}

#[derive(Clone, Copy, Debug, Default, PartialEq, Eq, Structural, Hash, PartialOrd, Ord)]
pub struct ActorId(pub u128);

impl ActorId {
    pub fn new(world_namespace: u64, counter: u64) -> (r: Self)
        ensures
            r.0 == packed_id(world_namespace, counter),
            id_namespace(r.0) == world_namespace,
            id_counter(r.0) == counter,
    {
        proof {
            lemma_pack_parts(world_namespace, counter);
        }
        ActorId(pack_id(world_namespace, counter))
    }

    pub fn world_namespace(self) -> (r: u64)
        ensures
            r == id_namespace(self.0),
    {
        unpack_namespace(self.0)
    }

    pub fn counter(self) -> (r: u64)
        ensures
            r == id_counter(self.0),
    {
        unpack_counter(self.0)
    }

    pub fn as_u128(self) -> (r: u128)
        ensures
            r == self.0,
    {
        self.0
    }

    /// `{namespace:016x}:{counter:016x}`.
    pub fn to_string(&self) -> (r: String)
        ensures
            r@ == id_display(id_namespace(self.0), id_counter(self.0)),
    {
        display_id(self.world_namespace(), self.counter())
    }
}

#[derive(Clone, Copy, Debug, Default, PartialEq, Eq, Structural, Hash, PartialOrd, Ord)]
pub struct CreatureId(pub u128);

impl CreatureId {
    pub fn new(world_namespace: u64, counter: u64) -> (r: Self)
        ensures
            r.0 == packed_id(world_namespace, counter),
            id_namespace(r.0) == world_namespace,
            id_counter(r.0) == counter,
    {
        proof {
            lemma_pack_parts(world_namespace, counter);
        }
        CreatureId(pack_id(world_namespace, counter))
    }

    pub fn world_namespace(self) -> (r: u64)
        ensures
            r == id_namespace(self.0),
    {
        unpack_namespace(self.0)
    }

    pub fn counter(self) -> (r: u64)
        ensures
            r == id_counter(self.0),
    {
        unpack_counter(self.0)
    }

    pub fn as_u128(self) -> (r: u128)
        ensures
            r == self.0,
    {
        self.0
    }

    /// `{namespace:016x}:{counter:016x}`.
    pub fn to_string(&self) -> (r: String)
        ensures
            r@ == id_display(id_namespace(self.0), id_counter(self.0)),
    {
        display_id(self.world_namespace(), self.counter())
    }
}

#[derive(Clone, Copy, Debug, Default, PartialEq, Eq, Structural, Hash, PartialOrd, Ord)]
pub struct NpcId(pub u128);

impl NpcId {
    pub fn new(world_namespace: u64, counter: u64) -> (r: Self)
        ensures
            r.0 == packed_id(world_namespace, counter),
            id_namespace(r.0) == world_namespace,
            id_counter(r.0) == counter,
    {
        proof {
            lemma_pack_parts(world_namespace, counter);
        }
        NpcId(pack_id(world_namespace, counter))
    }

    pub fn world_namespace(self) -> (r: u64)
        ensures
            r == id_namespace(self.0),
    {
        unpack_namespace(self.0)
    }

    pub fn counter(self) -> (r: u64)
        ensures
            r == id_counter(self.0),
    {
        unpack_counter(self.0)
    }

    pub fn as_u128(self) -> (r: u128)
        ensures
            r == self.0,
    {
        self.0
    }

    /// `{namespace:016x}:{counter:016x}`.
    pub fn to_string(&self) -> (r: String)
        ensures
            r@ == id_display(id_namespace(self.0), id_counter(self.0)),
    {
        display_id(self.world_namespace(), self.counter())
    }
}

#[derive(Clone, Copy, Debug, Default, PartialEq, Eq, Structural, Hash, PartialOrd, Ord)]
pub struct ItemId(pub u128);

impl ItemId {
    pub fn new(world_namespace: u64, counter: u64) -> (r: Self)
        ensures
            r.0 == packed_id(world_namespace, counter),
            id_namespace(r.0) == world_namespace,
            id_counter(r.0) == counter,
    {
        proof {
            lemma_pack_parts(world_namespace, counter);
        }
        ItemId(pack_id(world_namespace, counter))
    }

    pub fn world_namespace(self) -> (r: u64)
        ensures
            r == id_namespace(self.0),
    {
        unpack_namespace(self.0)
    }

    pub fn counter(self) -> (r: u64)
        ensures
            r == id_counter(self.0),
    {
        unpack_counter(self.0)
    }

    pub fn as_u128(self) -> (r: u128)
        ensures
            r == self.0,
    {
        self.0
    }

    /// `{namespace:016x}:{counter:016x}`.
    pub fn to_string(&self) -> (r: String)
        ensures
            r@ == id_display(id_namespace(self.0), id_counter(self.0)),
    {
        display_id(self.world_namespace(), self.counter())
    }
}

#[derive(Clone, Copy, Debug, Default, PartialEq, Eq, Structural, Hash, PartialOrd, Ord)]
pub struct InteractionId(pub u128);

impl InteractionId {
    pub fn new(world_namespace: u64, counter: u64) -> (r: Self)
        ensures
            r.0 == packed_id(world_namespace, counter),
            id_namespace(r.0) == world_namespace,
            id_counter(r.0) == counter,
    {
        proof {
            lemma_pack_parts(world_namespace, counter);
        }
        InteractionId(pack_id(world_namespace, counter))
    }

    pub fn world_namespace(self) -> (r: u64)
        ensures
            r == id_namespace(self.0),
    {
        unpack_namespace(self.0)
    }

    pub fn counter(self) -> (r: u64)
        ensures
            r == id_counter(self.0),
    {
        unpack_counter(self.0)
    }

    pub fn as_u128(self) -> (r: u128)
        ensures
            r == self.0,
    {
        self.0
    }

    /// `{namespace:016x}:{counter:016x}`.
    pub fn to_string(&self) -> (r: String)
        ensures
            r@ == id_display(id_namespace(self.0), id_counter(self.0)),
    {
        display_id(self.world_namespace(), self.counter())
    }
}

#[derive(Clone, Copy, Debug, Default, PartialEq, Eq, Structural, Hash, PartialOrd, Ord)]
pub struct VehicleId(pub u128);

impl VehicleId {
    pub fn new(world_namespace: u64, counter: u64) -> (r: Self)
        ensures
            r.0 == packed_id(world_namespace, counter),
            id_namespace(r.0) == world_namespace,
            id_counter(r.0) == counter,
    {
        proof {
            lemma_pack_parts(world_namespace, counter);
        }
        VehicleId(pack_id(world_namespace, counter))
    }

    pub fn world_namespace(self) -> (r: u64)
        ensures
            r == id_namespace(self.0),
    {
        unpack_namespace(self.0)
    }

    pub fn counter(self) -> (r: u64)
        ensures
            r == id_counter(self.0),
    {
        unpack_counter(self.0)
    }

    pub fn as_u128(self) -> (r: u128)
        ensures
            r == self.0,
    {
        self.0
    }

    /// `{namespace:016x}:{counter:016x}`.
    pub fn to_string(&self) -> (r: String)
        ensures
            r@ == id_display(id_namespace(self.0), id_counter(self.0)),
    {
        display_id(self.world_namespace(), self.counter())
    }
}

#[derive(Clone, Copy, Debug, Default, PartialEq, Eq, Structural, Hash, PartialOrd, Ord)]
pub struct MissionId(pub u128);

impl MissionId {
    pub fn new(world_namespace: u64, counter: u64) -> (r: Self)
        ensures
            r.0 == packed_id(world_namespace, counter),
            id_namespace(r.0) == world_namespace,
            id_counter(r.0) == counter,
    {
        proof {
            lemma_pack_parts(world_namespace, counter);
        }
        MissionId(pack_id(world_namespace, counter))
    }

    pub fn world_namespace(self) -> (r: u64)
        ensures
            r == id_namespace(self.0),
    {
        unpack_namespace(self.0)
    }

    pub fn counter(self) -> (r: u64)
        ensures
            r == id_counter(self.0),
    {
        unpack_counter(self.0)
    }

    pub fn as_u128(self) -> (r: u128)
        ensures
            r == self.0,
    {
        self.0
    }

    /// `{namespace:016x}:{counter:016x}`.
    pub fn to_string(&self) -> (r: String)
        ensures
            r@ == id_display(id_namespace(self.0), id_counter(self.0)),
    {
        display_id(self.world_namespace(), self.counter())
    }
}

#[derive(Clone, Copy, Debug, Default, PartialEq, Eq, Structural, Hash, PartialOrd, Ord)]
pub struct EventId(pub u128);

impl EventId {
    pub fn new(world_namespace: u64, counter: u64) -> (r: Self)
        ensures
            r.0 == packed_id(world_namespace, counter),
            id_namespace(r.0) == world_namespace,
            id_counter(r.0) == counter,
    {
        proof {
            lemma_pack_parts(world_namespace, counter);
        }
        EventId(pack_id(world_namespace, counter))
    }

    pub fn world_namespace(self) -> (r: u64)
        ensures
            r == id_namespace(self.0),
    {
        unpack_namespace(self.0)
    }

    pub fn counter(self) -> (r: u64)
        ensures
            r == id_counter(self.0),
    {
        unpack_counter(self.0)
    }

    pub fn as_u128(self) -> (r: u128)
        ensures
            r == self.0,
    {
        self.0
    }

    /// `{namespace:016x}:{counter:016x}`.
    pub fn to_string(&self) -> (r: String)
        ensures
            r@ == id_display(id_namespace(self.0), id_counter(self.0)),
    {
        display_id(self.world_namespace(), self.counter())
    }
}

} // verus!
