//! The register catalog: the fixed, ordered table of register descriptors
//! that is the single source of truth for how each register is requested,
//! encoded and decoded.

use vstd::prelude::*;

verus! {

/// How a register's logical value is laid out in 16-bit protocol words.
#[derive(Clone, Copy, PartialEq, Eq, Structural, Debug)]
pub enum EncodingKind {
    /// One word: an unsigned 16-bit magnitude, values 0 ..= 65535.
    Scalar,
    /// Two words (high, low) combined into a signed 32-bit value.
    Wide32,
    /// Two words: word 0 is a sign indicator (0 = non-negative, 1 = negative),
    /// word 1 is an unsigned magnitude; a set indicator shifts the value down
    /// by 65536.
    SignedFlagged,
}

/// Number of protocol words a value of this kind occupies.
pub open spec fn spec_word_count(kind: EncodingKind) -> nat {
    match kind {
        EncodingKind::Scalar => 1,
        EncodingKind::Wide32 => 2,
        EncodingKind::SignedFlagged => 2,
    }
}

/// The closed interval of values a kind represents and round-trips exactly.
pub open spec fn in_range(kind: EncodingKind, v: int) -> bool {
    match kind {
        EncodingKind::Scalar => 0 <= v <= 0xFFFF,
        EncodingKind::Wide32 => -0x8000_0000 <= v <= 0x7FFF_FFFF,
        EncodingKind::SignedFlagged => -0xFFFF <= v <= 0xFFFF,
    }
}

/// How many words to ask for when reading a register of this kind.
pub fn word_count(kind: EncodingKind) -> (n: u16)
    ensures
        n as nat == spec_word_count(kind),
{
    match kind {
        EncodingKind::Scalar => 1,
        EncodingKind::Wide32 => 2,
        EncodingKind::SignedFlagged => 2,
    }
}

/// One catalog entry. The request word count and the decode rule for the
/// register at `address` both follow from `kind`, so the two sides of the
/// protocol always agree.
#[derive(Clone, Copy)]
pub struct RegisterDescriptor {
    /// Unique display name of the register.
    pub name: &'static str,
    /// Protocol address, unique per catalog.
    pub address: u16,
    /// Word layout of the register's value.
    pub kind: EncodingKind,
    /// Smallest value the simulated device may generate for this register.
    pub domain_lo: i32,
    /// Largest value the simulated device may generate for this register.
    pub domain_hi: i32,
}

impl RegisterDescriptor {
    /// The generation domain is a non-empty closed interval lying inside the
    /// kind's representable range, so every generated value round-trips.
    pub open spec fn wf(self) -> bool {
        &&& self.domain_lo <= self.domain_hi
        &&& in_range(self.kind, self.domain_lo as int)
        &&& in_range(self.kind, self.domain_hi as int)
    }
}

/// The fixed register table: analog inputs at the mixed addresses, with the
/// two wide and the two sign-flagged registers among them, and the
/// boolean-like discrete inputs at the low addresses.
pub open spec fn spec_catalog() -> Seq<RegisterDescriptor> {
    seq![
        RegisterDescriptor { name: "AI10", address: 10, kind: EncodingKind::Scalar, domain_lo: 0, domain_hi: 15000 },
        RegisterDescriptor { name: "AI11", address: 11, kind: EncodingKind::SignedFlagged, domain_lo: -15000i32, domain_hi: 0 },
        RegisterDescriptor { name: "AI12", address: 12, kind: EncodingKind::Wide32, domain_lo: 0, domain_hi: 1000000 },
        RegisterDescriptor { name: "AI13", address: 13, kind: EncodingKind::Wide32, domain_lo: -1000000i32, domain_hi: 0 },
        RegisterDescriptor { name: "AI17", address: 17, kind: EncodingKind::Scalar, domain_lo: 0, domain_hi: 12000 },
        RegisterDescriptor { name: "AI18", address: 18, kind: EncodingKind::SignedFlagged, domain_lo: -15000i32, domain_hi: 15000 },
        RegisterDescriptor { name: "AI19", address: 19, kind: EncodingKind::Scalar, domain_lo: 0, domain_hi: 1000 },
        RegisterDescriptor { name: "AI20", address: 20, kind: EncodingKind::Scalar, domain_lo: 0, domain_hi: 1000 },
        RegisterDescriptor { name: "AI30", address: 30, kind: EncodingKind::Scalar, domain_lo: 0, domain_hi: 11000 },
        RegisterDescriptor { name: "AI50", address: 50, kind: EncodingKind::Scalar, domain_lo: 0, domain_hi: 15000 },
        RegisterDescriptor { name: "AI231", address: 231, kind: EncodingKind::Scalar, domain_lo: 0, domain_hi: 2047 },
        RegisterDescriptor { name: "AI232", address: 232, kind: EncodingKind::Scalar, domain_lo: 0, domain_hi: 2047 },
        RegisterDescriptor { name: "AI233", address: 233, kind: EncodingKind::Scalar, domain_lo: 0, domain_hi: 2047 },
        RegisterDescriptor { name: "DI0", address: 0, kind: EncodingKind::Scalar, domain_lo: 0, domain_hi: 1 },
        RegisterDescriptor { name: "DI1", address: 1, kind: EncodingKind::Scalar, domain_lo: 0, domain_hi: 1 },
        RegisterDescriptor { name: "DI8", address: 8, kind: EncodingKind::Scalar, domain_lo: 0, domain_hi: 1 },
        RegisterDescriptor { name: "DI80", address: 80, kind: EncodingKind::Scalar, domain_lo: 0, domain_hi: 1 },
    ]
}

/// Build the register table.
pub fn catalog() -> (r: Vec<RegisterDescriptor>)
    ensures
        r@ == spec_catalog(),
        forall|i: int| 0 <= i < r@.len() ==> (#[trigger] r@[i]).wf(),
        forall|i: int, j: int|
            0 <= i < r@.len() && 0 <= j < r@.len() && i != j
                ==> r@[i].address != r@[j].address,
{
    let mut r: Vec<RegisterDescriptor> = Vec::new();
    r.push(RegisterDescriptor { name: "AI10", address: 10, kind: EncodingKind::Scalar, domain_lo: 0, domain_hi: 15000 });
    r.push(RegisterDescriptor { name: "AI11", address: 11, kind: EncodingKind::SignedFlagged, domain_lo: -15000, domain_hi: 0 });
    r.push(RegisterDescriptor { name: "AI12", address: 12, kind: EncodingKind::Wide32, domain_lo: 0, domain_hi: 1000000 });
    r.push(RegisterDescriptor { name: "AI13", address: 13, kind: EncodingKind::Wide32, domain_lo: -1000000, domain_hi: 0 });
    r.push(RegisterDescriptor { name: "AI17", address: 17, kind: EncodingKind::Scalar, domain_lo: 0, domain_hi: 12000 });
    r.push(RegisterDescriptor { name: "AI18", address: 18, kind: EncodingKind::SignedFlagged, domain_lo: -15000, domain_hi: 15000 });
    r.push(RegisterDescriptor { name: "AI19", address: 19, kind: EncodingKind::Scalar, domain_lo: 0, domain_hi: 1000 });
    r.push(RegisterDescriptor { name: "AI20", address: 20, kind: EncodingKind::Scalar, domain_lo: 0, domain_hi: 1000 });
    r.push(RegisterDescriptor { name: "AI30", address: 30, kind: EncodingKind::Scalar, domain_lo: 0, domain_hi: 11000 });
    r.push(RegisterDescriptor { name: "AI50", address: 50, kind: EncodingKind::Scalar, domain_lo: 0, domain_hi: 15000 });
    r.push(RegisterDescriptor { name: "AI231", address: 231, kind: EncodingKind::Scalar, domain_lo: 0, domain_hi: 2047 });
    r.push(RegisterDescriptor { name: "AI232", address: 232, kind: EncodingKind::Scalar, domain_lo: 0, domain_hi: 2047 });
    r.push(RegisterDescriptor { name: "AI233", address: 233, kind: EncodingKind::Scalar, domain_lo: 0, domain_hi: 2047 });
    r.push(RegisterDescriptor { name: "DI0", address: 0, kind: EncodingKind::Scalar, domain_lo: 0, domain_hi: 1 });
    r.push(RegisterDescriptor { name: "DI1", address: 1, kind: EncodingKind::Scalar, domain_lo: 0, domain_hi: 1 });
    r.push(RegisterDescriptor { name: "DI8", address: 8, kind: EncodingKind::Scalar, domain_lo: 0, domain_hi: 1 });
    r.push(RegisterDescriptor { name: "DI80", address: 80, kind: EncodingKind::Scalar, domain_lo: 0, domain_hi: 1 });
    proof {
        assert(r@ =~= spec_catalog());
    }
    r
}

} // verus!
