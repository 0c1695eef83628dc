use vstd::prelude::*;

verus! {

/// Errors that the two vault operations report.
#[derive(Clone, Copy, Debug, PartialEq, Eq, Structural)]
pub enum CustomError {
    /// The lock's release time has not been reached yet.
    NotReached,
    /// A vault for this owner is still active.
    AlreadyExists,
    /// No vault exists for this owner.
    NotFound,
    /// The value transfer was refused (insufficient funds, or a balance would overflow).
    TransferFailure,
}

/// Number of bytes in the persisted layout of a [`Vault`].
pub const VAULT_LEN: usize = 25;

/// The persisted state of one owner's time lock.
#[derive(Clone, Copy, Debug, PartialEq, Eq, Structural)]
pub struct Vault {
    /// Creation time, in seconds since the epoch.
    pub start_clock: i64,
    /// Lock duration in seconds, counted from `start_clock`.
    pub end_clock: i64,
    /// Number of value units locked.
    pub nbr_lamports: u64,
    /// Which address-derivation variant produced the vault's address.
    pub bump: u8,
}

/// Little-endian bytes of a 64-bit word.
pub open spec fn le_bytes(x: u64) -> Seq<u8> {
    seq![
        x as u8,
        (x >> 8u64) as u8,
        (x >> 16u64) as u8,
        (x >> 24u64) as u8,
        (x >> 32u64) as u8,
        (x >> 40u64) as u8,
        (x >> 48u64) as u8,
        (x >> 56u64) as u8,
    ]
}

/// The 64-bit word whose little-endian bytes start at `at` in `b`.
pub open spec fn le_word(b: Seq<u8>, at: int) -> u64 {
    (b[at] as u64) | ((b[at + 1] as u64) << 8u64) | ((b[at + 2] as u64) << 16u64) | ((b[at
        + 3] as u64) << 24u64) | ((b[at + 4] as u64) << 32u64) | ((b[at + 5] as u64) << 40u64)
        | ((b[at + 6] as u64) << 48u64) | ((b[at + 7] as u64) << 56u64)
}

impl Vault {
    /// The earliest time at which the lock may be released.
    pub open spec fn release_time(self) -> int {
        self.start_clock as int + self.end_clock as int
    }

    /// Whether the guard condition holds at time `now`.
    pub open spec fn released_at(self, now: i64) -> bool {
        now as int >= self.release_time()
    }

    /// The persisted layout: created time, duration and amount as little-endian
    /// 64-bit words, then the derivation tag.
    pub open spec fn layout(self) -> Seq<u8> {
        le_bytes(self.start_clock as u64) + le_bytes(self.end_clock as u64) + le_bytes(
            self.nbr_lamports,
        ) + seq![self.bump]
    }

    /// The record that a byte string of the persisted layout holds, if its length is right.
    pub open spec fn from_layout(b: Seq<u8>) -> Option<Vault> {
        if b.len() == VAULT_LEN {
            Some(
                Vault {
                    start_clock: le_word(b, 0) as i64,
                    end_clock: le_word(b, 8) as i64,
                    nbr_lamports: le_word(b, 16),
                    bump: b[24],
                },
            )
        } else {
            None
        }
    }

    /// Builds a record; no validation beyond the field types.
    pub fn new(start_clock: i64, end_clock: i64, nbr_lamports: u64, bump: u8) -> (r: Vault)
        ensures
            r == (Vault { start_clock, end_clock, nbr_lamports, bump }),
    {
        Vault { start_clock, end_clock, nbr_lamports, bump }
    }

    /// Whether the lock may be released at time `now`.
    pub fn is_unlockable(&self, now: i64) -> (r: bool)
        ensures
            r == self.released_at(now),
    {
        (self.start_clock as i128) + (self.end_clock as i128) <= now as i128
    }

    /// The amount to release at time `now`, or `NotReached` before the release time.
    pub fn check_unlock(&self, now: i64) -> (r: Result<u64, CustomError>)
        ensures
            r == if self.released_at(now) {
                Ok::<u64, CustomError>(self.nbr_lamports)
            } else {
                Err::<u64, CustomError>(CustomError::NotReached)
            },
    {
        if self.is_unlockable(now) {
            Ok(self.nbr_lamports)
        } else {
            Err(CustomError::NotReached)
        }
    }

    /// Serializes the record to its fixed-size persisted layout.
    pub fn to_bytes(&self) -> (r: Vec<u8>)
        ensures
            r@ == self.layout(),
            r@.len() == VAULT_LEN,
            Vault::from_layout(r@) == Some(*self),
    {
        proof {
            lemma_layout_round_trip(*self);
        }
        let mut out: Vec<u8> = Vec::new();
        push_le(&mut out, self.start_clock as u64);
        push_le(&mut out, self.end_clock as u64);
        push_le(&mut out, self.nbr_lamports);
        out.push(self.bump);
        out
    }

    /// Reads a record from its persisted layout; `None` unless `b` has exactly the layout's length.
    pub fn from_bytes(b: &[u8]) -> (r: Option<Vault>)
        ensures
            r == Vault::from_layout(b@),
    {
        if b.len() != VAULT_LEN {
            return None;
        }
        Some(
            Vault {
                start_clock: read_le(b, 0) as i64,
                end_clock: read_le(b, 8) as i64,
                nbr_lamports: read_le(b, 16),
                bump: b[24],
            },
        )
    }
}

/// Appends the little-endian bytes of `x`.
fn push_le(out: &mut Vec<u8>, x: u64)
    ensures
        final(out)@ == old(out)@ + le_bytes(x),
{
    out.push(x as u8);
    out.push((x >> 8u64) as u8);
    out.push((x >> 16u64) as u8);
    out.push((x >> 24u64) as u8);
    out.push((x >> 32u64) as u8);
    out.push((x >> 40u64) as u8);
    out.push((x >> 48u64) as u8);
    out.push((x >> 56u64) as u8);
    assert(final(out)@ =~= old(out)@ + le_bytes(x));
}

/// Reads the little-endian word that starts at `at`.
fn read_le(b: &[u8], at: usize) -> (r: u64)
    requires
        at + 8 <= b@.len(),
    ensures
        r == le_word(b@, at as int),
{
    (b[at] as u64) | ((b[at + 1] as u64) << 8u64) | ((b[at + 2] as u64) << 16u64) | ((b[at
        + 3] as u64) << 24u64) | ((b[at + 4] as u64) << 32u64) | ((b[at + 5] as u64) << 40u64)
        | ((b[at + 6] as u64) << 48u64) | ((b[at + 7] as u64) << 56u64)
}

/// The little-endian word read back from the bytes of `x` is `x`.
pub proof fn lemma_le_word_of_bytes(x: u64)
    ensures
        le_word(le_bytes(x), 0) == x,
{
    let b = le_bytes(x);
    let (b0, b1, b2, b3, b4, b5, b6, b7) = (b[0], b[1], b[2], b[3], b[4], b[5], b[6], b[7]);
    assert((b0 as u64) | ((b1 as u64) << 8u64) | ((b2 as u64) << 16u64) | ((b3 as u64) << 24u64)
        | ((b4 as u64) << 32u64) | ((b5 as u64) << 40u64) | ((b6 as u64) << 48u64) | ((b7 as u64)
        << 56u64) == x) by (bit_vector)
        requires
            b0 == x as u8,
            b1 == (x >> 8u64) as u8,
            b2 == (x >> 16u64) as u8,
            b3 == (x >> 24u64) as u8,
            b4 == (x >> 32u64) as u8,
            b5 == (x >> 40u64) as u8,
            b6 == (x >> 48u64) as u8,
            b7 == (x >> 56u64) as u8,
    ;
}

/// Reading back the persisted layout of a record gives the same record.
pub proof fn lemma_layout_round_trip(v: Vault)
    ensures
        Vault::from_layout(v.layout()) == Some(v),
{
    let b = v.layout();
    let s = v.start_clock as u64;
    let e = v.end_clock as u64;
    lemma_le_word_of_bytes(s);
    lemma_le_word_of_bytes(e);
    lemma_le_word_of_bytes(v.nbr_lamports);
    assert(b.subrange(0, 8) =~= le_bytes(s));
    assert(b.subrange(8, 16) =~= le_bytes(e));
    assert(b.subrange(16, 24) =~= le_bytes(v.nbr_lamports));
    assert(le_word(b, 0) == le_word(le_bytes(s), 0));
    assert(le_word(b, 8) == le_word(le_bytes(e), 0));
    assert(le_word(b, 16) == le_word(le_bytes(v.nbr_lamports), 0));
    let st = v.start_clock;
    let en = v.end_clock;
    assert((st as u64) as i64 == st) by (bit_vector);
    assert((en as u64) as i64 == en) by (bit_vector);
}

} // verus!
