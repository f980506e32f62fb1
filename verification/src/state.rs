//! The grant record: its fields, its invariants, its transitions and its
//! layout in storage.

use crate::address::Pubkey;
use crate::bytes::{
    i64_from_le, i64_to_le, le_bytes, le_value, lemma_i64_from_le_bound, lemma_i64_le_roundtrip,
    lemma_i64_le_unique, lemma_le_roundtrip, lemma_le_unique,
    lemma_le_value_bound, lemma_pow256_8, read_i64, read_key, read_u64, write_bytes, write_i64,
    write_u64,
};
use crate::errors::VestingError;
use crate::schedule::{calculate_released, lemma_released_bounded, released, valid_schedule};
use vstd::prelude::*;

verus! {

/// The number of bytes that a grant record takes in storage.
pub const VESTING_SIZE: usize = 145;

/// A grant as contracts speak of it: the fields of the record, with the
/// identities as byte strings.
pub struct Grant {
    pub admin: Seq<u8>,
    pub beneficiary: Seq<u8>,
    pub mint: Seq<u8>,
    pub total_amount: u64,
    pub released_amount: u64,
    pub start_time: i64,
    pub cliff_time: i64,
    pub end_time: i64,
    pub seed: u64,
    pub bump: u8,
}

impl Grant {
    /// What holds of every grant at all times: the identities have 32 bytes,
    /// there is something to unlock, the times bound a schedule, and no more
    /// has been handed out than there is.
    pub open spec fn valid(self) -> bool {
        &&& self.admin.len() == 32
        &&& self.beneficiary.len() == 32
        &&& self.mint.len() == 32
        &&& self.total_amount > 0
        &&& valid_schedule(self.start_time as int, self.cliff_time as int, self.end_time as int)
        &&& self.released_amount <= self.total_amount
    }

    /// The amount unlocked at `now`.
    pub open spec fn released_at(self, now: int) -> int {
        released(
            self.total_amount as int,
            self.start_time as int,
            self.cliff_time as int,
            self.end_time as int,
            now,
        )
    }

    /// The amount unlocked at `now` and not handed out yet; nothing where
    /// more has been handed out than is unlocked.
    pub open spec fn claimable_at(self, now: int) -> int {
        if self.released_at(now) > self.released_amount {
            self.released_at(now) - self.released_amount
        } else {
            0
        }
    }

    /// The grant after `amount` more has been handed out.
    pub open spec fn credited(self, amount: int) -> Grant {
        Grant { released_amount: (self.released_amount + amount) as u64, ..self }
    }

    /// The 145 bytes of the record: the three identities, then the total and
    /// the released amount, the three times, the seed and the bump, numbers
    /// least significant byte first.
    pub open spec fn encode(self) -> Seq<u8> {
        self.admin + self.beneficiary + self.mint + le_bytes(self.total_amount as nat, 8)
            + le_bytes(self.released_amount as nat, 8) + i64_to_le(self.start_time as int)
            + i64_to_le(self.cliff_time as int) + i64_to_le(self.end_time as int) + le_bytes(
            self.seed as nat,
            8,
        ) + seq![self.bump]
    }

    /// The fields that stand in the first 145 bytes of `data`.
    pub open spec fn decode(data: Seq<u8>) -> Grant {
        Grant {
            admin: data.subrange(0, 32),
            beneficiary: data.subrange(32, 64),
            mint: data.subrange(64, 96),
            total_amount: le_value(data.subrange(96, 104)) as u64,
            released_amount: le_value(data.subrange(104, 112)) as u64,
            start_time: i64_from_le(data.subrange(112, 120)) as i64,
            cliff_time: i64_from_le(data.subrange(120, 128)) as i64,
            end_time: i64_from_le(data.subrange(128, 136)) as i64,
            seed: le_value(data.subrange(136, 144)) as u64,
            bump: data[144],
        }
    }

    /// Whether `data` is the record of a grant: 145 bytes whose fields keep
    /// the invariants.
    pub open spec fn is_record(data: Seq<u8>) -> bool {
        data.len() == 145 && Grant::decode(data).valid()
    }
}

/// A record has 145 bytes, and reading it gives the grant back.
pub proof fn lemma_decode_encode(g: Grant)
    requires
        g.admin.len() == 32,
        g.beneficiary.len() == 32,
        g.mint.len() == 32,
    ensures
        g.encode().len() == 145,
        Grant::decode(g.encode()) == g,
{
    let data = g.encode();
    lemma_pow256_8();
    lemma_le_roundtrip(g.total_amount as nat, 8);
    lemma_le_roundtrip(g.released_amount as nat, 8);
    lemma_le_roundtrip(g.seed as nat, 8);
    lemma_i64_le_roundtrip(g.start_time as int);
    lemma_i64_le_roundtrip(g.cliff_time as int);
    lemma_i64_le_roundtrip(g.end_time as int);
    assert(data.len() == 145);
    assert(data.subrange(0, 32) =~= g.admin);
    assert(data.subrange(32, 64) =~= g.beneficiary);
    assert(data.subrange(64, 96) =~= g.mint);
    assert(data.subrange(96, 104) =~= le_bytes(g.total_amount as nat, 8));
    assert(data.subrange(104, 112) =~= le_bytes(g.released_amount as nat, 8));
    assert(data.subrange(112, 120) =~= i64_to_le(g.start_time as int));
    assert(data.subrange(120, 128) =~= i64_to_le(g.cliff_time as int));
    assert(data.subrange(128, 136) =~= i64_to_le(g.end_time as int));
    assert(data.subrange(136, 144) =~= le_bytes(g.seed as nat, 8));
    assert(data[144] == g.bump);
}

/// Writing what was read from 145 bytes gives the 145 bytes back.
pub proof fn lemma_encode_decode(data: Seq<u8>)
    requires
        data.len() == 145,
    ensures
        Grant::decode(data).encode() == data,
{
    let g = Grant::decode(data);
    lemma_pow256_8();
    lemma_le_value_bound(data.subrange(96, 104));
    lemma_le_value_bound(data.subrange(104, 112));
    lemma_le_value_bound(data.subrange(136, 144));
    lemma_i64_from_le_bound(data.subrange(112, 120));
    lemma_i64_from_le_bound(data.subrange(120, 128));
    lemma_i64_from_le_bound(data.subrange(128, 136));
    lemma_le_unique(data.subrange(96, 104));
    lemma_le_unique(data.subrange(104, 112));
    lemma_le_unique(data.subrange(136, 144));
    lemma_i64_le_unique(data.subrange(112, 120));
    lemma_i64_le_unique(data.subrange(120, 128));
    lemma_i64_le_unique(data.subrange(128, 136));
    assert(g.encode() =~= data);
}

/// The grant after claims made at `times`, one after the other.
pub open spec fn after_claims(g: Grant, times: Seq<i64>) -> Grant
    decreases times.len(),
{
    if times.len() == 0 {
        g
    } else {
        let before = after_claims(g, times.drop_last());
        before.credited(before.claimable_at(times.last() as int))
    }
}

/// Whether each of the claims made at `times`, one after the other, hands
/// something out.
pub open spec fn claims_succeed(g: Grant, times: Seq<i64>) -> bool
    decreases times.len(),
{
    times.len() == 0 || (claims_succeed(g, times.drop_last()) && after_claims(
        g,
        times.drop_last(),
    ).claimable_at(times.last() as int) > 0)
}

/// The sum of what the claims made at `times` hand out.
pub open spec fn total_claimed(g: Grant, times: Seq<i64>) -> int
    decreases times.len(),
{
    if times.len() == 0 {
        0
    } else {
        total_claimed(g, times.drop_last()) + after_claims(g, times.drop_last()).claimable_at(
            times.last() as int,
        )
    }
}

/// A claim that hands something out leaves a valid grant, of which exactly
/// what is unlocked at that time has been handed out, and that is more than
/// before.
pub proof fn lemma_claim_step(g: Grant, now: i64)
    requires
        g.valid(),
        g.claimable_at(now as int) > 0,
    ensures
        g.credited(g.claimable_at(now as int)).valid(),
        g.credited(g.claimable_at(now as int)).released_amount == g.released_at(now as int),
        g.credited(g.claimable_at(now as int)).released_amount > g.released_amount,
        g.credited(g.claimable_at(now as int)).released_amount <= g.total_amount,
{
    lemma_released_bounded(
        g.total_amount as int,
        g.start_time as int,
        g.cliff_time as int,
        g.end_time as int,
        now as int,
    );
}

/// Through any row of claims that each hand something out, the grant stays
/// valid, keeps all its fields but the released amount, and the released
/// amount is what it was at first plus the sum of what was handed out. After
/// the last claim it is exactly what is unlocked at the time of that claim,
/// and never more than the total.
pub proof fn lemma_claims_in_a_row(g: Grant, times: Seq<i64>)
    requires
        g.valid(),
        claims_succeed(g, times),
    ensures
        after_claims(g, times).valid(),
        after_claims(g, times) == (Grant {
            released_amount: after_claims(g, times).released_amount,
            ..g
        }),
        after_claims(g, times).released_amount == g.released_amount + total_claimed(g, times),
        after_claims(g, times).released_amount <= g.total_amount,
        times.len() > 0 ==> after_claims(g, times).released_amount == g.released_at(
            times.last() as int,
        ),
        times.len() > 0 ==> after_claims(g, times).released_amount > after_claims(
            g,
            times.drop_last(),
        ).released_amount,
    decreases times.len(),
{
    if times.len() > 0 {
        lemma_claims_in_a_row(g, times.drop_last());
        lemma_claim_step(after_claims(g, times.drop_last()), times.last());
    }
}

/// Of a grant of which nothing has been handed out yet, the claims of a row
/// that each hand something out hand out, taken together, exactly what is
/// unlocked at the time of the last of them.
pub proof fn lemma_claims_sum_to_released(g: Grant, times: Seq<i64>)
    requires
        g.valid(),
        g.released_amount == 0,
        times.len() > 0,
        claims_succeed(g, times),
    ensures
        total_claimed(g, times) == g.released_at(times.last() as int),
{
    lemma_claims_in_a_row(g, times);
}

/// Where all claims of a row hand something out, so do the first `k` of
/// them.
pub proof fn lemma_claims_succeed_prefix(g: Grant, times: Seq<i64>, k: int)
    requires
        claims_succeed(g, times),
        0 <= k <= times.len(),
    ensures
        claims_succeed(g, times.take(k)),
    decreases times.len(),
{
    if k == times.len() {
        assert(times.take(k) =~= times);
    } else {
        lemma_claims_succeed_prefix(g, times.drop_last(), k);
        assert(times.drop_last().take(k) =~= times.take(k));
    }
}

/// In a row of claims that each hand something out, every claim raises the
/// released amount.
pub proof fn lemma_claims_strictly_increase(g: Grant, times: Seq<i64>, k: int)
    requires
        g.valid(),
        claims_succeed(g, times),
        0 < k <= times.len(),
    ensures
        after_claims(g, times.take(k - 1)).released_amount < after_claims(
            g,
            times.take(k),
        ).released_amount <= g.total_amount,
{
    lemma_claims_succeed_prefix(g, times, k);
    lemma_claims_in_a_row(g, times.take(k));
    assert(times.take(k).drop_last() =~= times.take(k - 1));
}

/// A grant record.
#[derive(Clone, Copy, Debug, PartialEq, Eq)]
pub struct VestingAccount {
    /// Who created the grant and may fund it.
    pub admin: Pubkey,
    /// Who may claim from the grant.
    pub beneficiary: Pubkey,
    /// The kind of token that the grant is in.
    pub mint: Pubkey,
    /// All that can ever be claimed.
    pub total_amount: u64,
    /// What has been handed to the beneficiary so far.
    pub released_amount: u64,
    /// When the schedule starts.
    pub start_time: i64,
    /// Before this time nothing is unlocked.
    pub cliff_time: i64,
    /// From this time on everything is unlocked.
    pub end_time: i64,
    /// Tells apart the grants of one beneficiary in one mint.
    pub seed: u64,
    /// The bump with which the record's identity is derived.
    pub bump: u8,
}

impl View for VestingAccount {
    type V = Grant;

    open spec fn view(&self) -> Grant {
        Grant {
            admin: self.admin@,
            beneficiary: self.beneficiary@,
            mint: self.mint@,
            total_amount: self.total_amount,
            released_amount: self.released_amount,
            start_time: self.start_time,
            cliff_time: self.cliff_time,
            end_time: self.end_time,
            seed: self.seed,
            bump: self.bump,
        }
    }
}

/// Whether a grant with this amount and these times can be created.
pub open spec fn valid_terms(total_amount: u64, start_time: i64, cliff_time: i64, end_time: i64) -> bool {
    total_amount > 0 && valid_schedule(start_time as int, cliff_time as int, end_time as int)
}

/// The sum of what has been handed out and what is handed out now, where it
/// fits 64 bits.
pub fn checked_release(released_amount: u64, claimable: u64) -> (r: Result<u64, VestingError>)
    ensures
        released_amount + claimable <= u64::MAX ==> r == Ok::<u64, VestingError>(
            (released_amount + claimable) as u64,
        ),
        released_amount + claimable > u64::MAX ==> r == Err::<u64, VestingError>(
            VestingError::Overflow,
        ),
{
    match released_amount.checked_add(claimable) {
        Some(sum) => Ok(sum),
        None => Err(VestingError::Overflow),
    }
}

impl VestingAccount {
    /// Makes the record of a new grant, of which nothing has been handed
    /// out. Fails with `InvalidArgument` where the amount is zero or the
    /// times are out of order.
    pub fn new(
        admin: Pubkey,
        beneficiary: Pubkey,
        mint: Pubkey,
        seed: u64,
        total_amount: u64,
        start_time: i64,
        cliff_time: i64,
        end_time: i64,
        bump: u8,
    ) -> (r: Result<VestingAccount, VestingError>)
        ensures
            valid_terms(total_amount, start_time, cliff_time, end_time) ==> r == Ok::<
                VestingAccount,
                VestingError,
            >(
                VestingAccount {
                    admin,
                    beneficiary,
                    mint,
                    total_amount,
                    released_amount: 0,
                    start_time,
                    cliff_time,
                    end_time,
                    seed,
                    bump,
                },
            ),
            !valid_terms(total_amount, start_time, cliff_time, end_time) ==> r == Err::<
                VestingAccount,
                VestingError,
            >(VestingError::InvalidArgument),
            r matches Ok(g) ==> g@.valid(),
    {
        if total_amount == 0 {
            return Err(VestingError::InvalidArgument);
        }
        if !(start_time <= cliff_time && cliff_time <= end_time && start_time < end_time) {
            return Err(VestingError::InvalidArgument);
        }
        Ok(
            VestingAccount {
                admin,
                beneficiary,
                mint,
                total_amount,
                released_amount: 0,
                start_time,
                cliff_time,
                end_time,
                seed,
                bump,
            },
        )
    }

    /// Whether the record keeps the invariants of a grant.
    pub fn is_valid(&self) -> (r: bool)
        ensures
            r == self@.valid(),
    {
        self.total_amount > 0 && self.start_time <= self.cliff_time && self.cliff_time
            <= self.end_time && self.start_time < self.end_time && self.released_amount
            <= self.total_amount
    }

    /// The amount unlocked at `now`.
    pub fn calculate_released(&self, now: i64) -> (r: u64)
        requires
            self@.valid(),
        ensures
            r == self@.released_at(now as int),
            r <= self.total_amount,
    {
        proof {
            lemma_released_bounded(
                self.total_amount as int,
                self.start_time as int,
                self.cliff_time as int,
                self.end_time as int,
                now as int,
            );
        }
        calculate_released(
            self.total_amount,
            self.start_time,
            self.cliff_time,
            self.end_time,
            now,
        )
    }

    /// The amount unlocked at `now` and not handed out yet.
    pub fn claimable(&self, now: i64) -> (r: u64)
        requires
            self@.valid(),
        ensures
            r == self@.claimable_at(now as int),
    {
        let total_released: u64 = self.calculate_released(now);
        total_released.saturating_sub(self.released_amount)
    }

    /// Hands out what is unlocked at `now` and not handed out yet, and
    /// returns that amount. Fails with `NothingToClaim`, and changes
    /// nothing, where there is nothing to hand out.
    pub fn claim(&mut self, now: i64) -> (r: Result<u64, VestingError>)
        requires
            old(self)@.valid(),
        ensures
            old(self)@.claimable_at(now as int) > 0 ==> r == Ok::<u64, VestingError>(
                old(self)@.claimable_at(now as int) as u64,
            ) && final(self)@ == old(self)@.credited(old(self)@.claimable_at(now as int)),
            old(self)@.claimable_at(now as int) == 0 ==> r == Err::<u64, VestingError>(
                VestingError::NothingToClaim,
            ) && *final(self) == *old(self),
            final(self)@.valid(),
            r is Ok ==> final(self).released_amount == old(self)@.released_at(now as int),
            r is Ok ==> final(self).released_amount > old(self).released_amount,
    {
        let claimable: u64 = self.claimable(now);
        if claimable == 0 {
            return Err(VestingError::NothingToClaim);
        }
        proof {
            lemma_released_bounded(
                self.total_amount as int,
                self.start_time as int,
                self.cliff_time as int,
                self.end_time as int,
                now as int,
            );
        }
        match checked_release(self.released_amount, claimable) {
            Ok(sum) => {
                self.released_amount = sum;
                Ok(claimable)
            },
            Err(e) => Err(e),
        }
    }

    /// Writes the record in its storage layout.
    pub fn pack(&self) -> (r: Vec<u8>)
        ensures
            r@ == self@.encode(),
            r@.len() == 145,
    {
        let mut out: Vec<u8> = Vec::new();
        write_bytes(&mut out, self.admin.as_slice());
        write_bytes(&mut out, self.beneficiary.as_slice());
        write_bytes(&mut out, self.mint.as_slice());
        write_u64(&mut out, self.total_amount);
        write_u64(&mut out, self.released_amount);
        write_i64(&mut out, self.start_time);
        write_i64(&mut out, self.cliff_time);
        write_i64(&mut out, self.end_time);
        write_u64(&mut out, self.seed);
        out.push(self.bump);
        proof {
            assert(out@ =~= self@.encode());
            lemma_decode_encode(self@);
        }
        out
    }

    /// Reads a record from its storage layout. Gives `None` unless `data`
    /// has 145 bytes and its fields keep the invariants of a grant.
    pub fn unpack(data: &[u8]) -> (r: Option<VestingAccount>)
        ensures
            r is Some == Grant::is_record(data@),
            r matches Some(g) ==> g@ == Grant::decode(data@) && g@.valid(),
    {
        if data.len() != VESTING_SIZE {
            return None;
        }
        proof {
            lemma_pow256_8();
            lemma_le_value_bound(data@.subrange(96, 104));
            lemma_le_value_bound(data@.subrange(104, 112));
            lemma_le_value_bound(data@.subrange(136, 144));
            lemma_i64_from_le_bound(data@.subrange(112, 120));
            lemma_i64_from_le_bound(data@.subrange(120, 128));
            lemma_i64_from_le_bound(data@.subrange(128, 136));
        }
        let account = VestingAccount {
            admin: read_key(data, 0),
            beneficiary: read_key(data, 32),
            mint: read_key(data, 64),
            total_amount: read_u64(data, 96),
            released_amount: read_u64(data, 104),
            start_time: read_i64(data, 112),
            cliff_time: read_i64(data, 120),
            end_time: read_i64(data, 128),
            seed: read_u64(data, 136),
            bump: data[144],
        };
        assert(account@ == Grant::decode(data@));
        if account.is_valid() {
            Some(account)
        } else {
            None
        }
    }
}

} // verus!
