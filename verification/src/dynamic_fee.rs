use crate::accounts::AccountData;
use crate::error::Error;
use crate::hook_data::execute_tagged;
use crate::hook_data::is_execute_instruction;
use crate::hook_data::token_account_transferring;
use crate::hook_data::unpack_hook_instruction;
use crate::hook_data::unpack_transferring;
use crate::instructions::swap::spec_u64_le;
use vstd::prelude::*;

verus! {

/// Why the fee controller refused a transfer.
#[derive(Clone, Copy, Debug, PartialEq, Eq, Structural)]
pub enum DynamicFeeError {
    MathOverflow,
    InvalidTransferState,
    FeeCalculationFailed,
    TimeWindowUpdateFailed,
}

impl DynamicFeeError {
    /// The message shown to a caller for this error.
    pub fn message(&self) -> (text: &'static str)
        ensures
            text@ == self.spec_message(),
    {
        match self {
            DynamicFeeError::MathOverflow => "Math overflow in calculations",
            DynamicFeeError::InvalidTransferState => "The token is not currently transferring",
            DynamicFeeError::FeeCalculationFailed => "Fee calculation failed",
            DynamicFeeError::TimeWindowUpdateFailed => "Time window update failed",
        }
    }

    /// The characters of [`DynamicFeeError::message`].
    pub open spec fn spec_message(&self) -> Seq<char> {
        match self {
            DynamicFeeError::MathOverflow => "Math overflow in calculations"@,
            DynamicFeeError::InvalidTransferState => "The token is not currently transferring"@,
            DynamicFeeError::FeeCalculationFailed => "Fee calculation failed"@,
            DynamicFeeError::TimeWindowUpdateFailed => "Time window update failed"@,
        }
    }
}

/// The base fee that a new record starts with, in basis points.
pub const INITIAL_BASE_FEE: u16 = 10;

/// The highest fee that a new record allows, in basis points.
pub const INITIAL_MAX_FEE: u16 = 300;

/// The record that the fee controller keeps for one token type.
#[derive(Clone, Copy, Debug)]
pub struct DynamicFeeStats {
    pub total_fees_collected: u64,
    pub total_transfers: u64,
    pub total_volume: u64,
    pub current_fee_basis_points: u16,
    pub base_fee_basis_points: u16,
    pub max_fee_basis_points: u16,
    pub recent_transfers: [u64; 6],
    pub recent_volumes: [u64; 6],
    pub current_minute_slot: u8,
    pub last_update_timestamp: i64,
    pub peak_tps: u16,
    pub avg_transfer_size: u64,
}

/// A [`DynamicFeeStats`] as mathematical values.
pub struct FeeStatsView {
    pub total_fees_collected: int,
    pub total_transfers: int,
    pub total_volume: int,
    pub current_fee_basis_points: int,
    pub base_fee_basis_points: int,
    pub max_fee_basis_points: int,
    pub recent_transfers: Seq<int>,
    pub recent_volumes: Seq<int>,
    pub current_minute_slot: int,
    pub last_update_timestamp: int,
    pub peak_tps: int,
    pub avg_transfer_size: int,
}

impl View for DynamicFeeStats {
    type V = FeeStatsView;

    open spec fn view(&self) -> FeeStatsView {
        FeeStatsView {
            total_fees_collected: self.total_fees_collected as int,
            total_transfers: self.total_transfers as int,
            total_volume: self.total_volume as int,
            current_fee_basis_points: self.current_fee_basis_points as int,
            base_fee_basis_points: self.base_fee_basis_points as int,
            max_fee_basis_points: self.max_fee_basis_points as int,
            recent_transfers: Seq::new(6, |j: int| self.recent_transfers@[j] as int),
            recent_volumes: Seq::new(6, |j: int| self.recent_volumes@[j] as int),
            current_minute_slot: self.current_minute_slot as int,
            last_update_timestamp: self.last_update_timestamp as int,
            peak_tps: self.peak_tps as int,
            avg_transfer_size: self.avg_transfer_size as int,
        }
    }
}

/// How many slots the window moves on when the clock goes from `last` to `now`: one for
/// each whole minute, at most six, and none before a minute is over.
pub open spec fn spec_window_steps(last: int, now: int) -> int {
    if now - last >= 60 {
        if (now - last) / 60 < 6 {
            (now - last) / 60
        } else {
            6
        }
    } else {
        0
    }
}

/// Whether slot `j` is among the `steps` slots that follow `slot` in the ring.
pub open spec fn spec_slot_cleared(slot: int, steps: int, j: int) -> bool {
    (j - slot - 1 + 6) % 6 < steps
}

/// The ring once the window has moved on by `steps` slots from `slot`: the slots passed
/// over are empty, the others keep their count.
pub open spec fn spec_ring_advanced(ring: Seq<int>, slot: int, steps: int) -> Seq<int> {
    Seq::new(
        6,
        |j: int|
            if spec_slot_cleared(slot, steps, j) {
                0
            } else {
                ring[j]
            },
    )
}

/// The sum of the six slots of a ring.
pub open spec fn spec_ring_sum(ring: Seq<int>) -> int {
    ring[0] + ring[1] + ring[2] + ring[3] + ring[4] + ring[5]
}

/// The fee that a rate of `tpm` transfers in the window calls for.
pub open spec fn spec_tier_fee(tpm: int, base: int, max: int) -> int {
    if tpm <= 10 {
        base
    } else if tpm <= 30 {
        base * 2
    } else if tpm <= 60 {
        base * 5
    } else if tpm <= 120 {
        base * 12
    } else {
        max
    }
}

/// The fee after one step from `current` towards `target`, of at most `base` either way,
/// and never below zero.
pub open spec fn spec_smoothed_fee(target: int, current: int, base: int) -> int {
    if target > current {
        if target < current + base {
            target
        } else {
            current + base
        }
    } else {
        let floor = if current >= base {
            current - base
        } else {
            0
        };
        if target > floor {
            target
        } else {
            floor
        }
    }
}

/// The smaller of a fee and the highest fee allowed.
pub open spec fn spec_capped(fee: int, max: int) -> int {
    if fee < max {
        fee
    } else {
        max
    }
}

/// The average transfer size once a transfer of `amount` has joined `total` earlier ones
/// of average `avg`; `None` where a step of the calculation does not fit in 64 bits.
pub open spec fn spec_average(avg: int, total: int, amount: int) -> Option<int> {
    if total > 0 {
        if avg * total + amount > u64::MAX || total + 1 > u64::MAX {
            None
        } else {
            Some((avg * total + amount) / (total + 1))
        }
    } else {
        Some(amount)
    }
}

/// The fee in force after a transfer: one smoothed step towards the tier of the rate,
/// capped, and raised by half, capped again, where the transfer is a burst.
pub open spec fn spec_next_fee(
    tpm: int,
    current: int,
    base: int,
    max: int,
    burst: bool,
) -> int {
    let stepped = spec_capped(spec_smoothed_fee(spec_tier_fee(tpm, base, max), current, base), max);
    if burst {
        spec_capped(stepped * 3 / 2, max)
    } else {
        stepped
    }
}

/// Whether a transfer of `amount` is a burst against the average transfer size.
pub open spec fn spec_is_burst(amount: int, average: int) -> bool {
    average > 0 && amount > average * 10
}

impl FeeStatsView {
    /// The slot that is current once a transfer has arrived at `now`.
    pub open spec fn slot_at(self, now: int) -> int {
        (self.current_minute_slot + spec_window_steps(self.last_update_timestamp, now)) % 6
    }

    /// The transfer counts of the window once a transfer has arrived at `now`.
    pub open spec fn transfers_at(self, now: int) -> Seq<int> {
        let ring = spec_ring_advanced(
            self.recent_transfers,
            self.current_minute_slot,
            spec_window_steps(self.last_update_timestamp, now),
        );
        ring.update(self.slot_at(now), ring[self.slot_at(now)] + 1)
    }

    /// The volumes of the window once a transfer of `amount` has arrived at `now`.
    pub open spec fn volumes_at(self, now: int, amount: int) -> Seq<int> {
        let ring = spec_ring_advanced(
            self.recent_volumes,
            self.current_minute_slot,
            spec_window_steps(self.last_update_timestamp, now),
        );
        ring.update(self.slot_at(now), ring[self.slot_at(now)] + amount)
    }

    /// Whether a transfer of `amount` at `now` takes a counter beyond 64 bits.
    pub open spec fn overflows(self, now: int, amount: int) -> bool {
        ||| self.transfers_at(now)[self.slot_at(now)] > u64::MAX
        ||| self.volumes_at(now, amount)[self.slot_at(now)] > u64::MAX
        ||| spec_average(self.avg_transfer_size, self.total_transfers, amount) is None
    }

    /// The record after a transfer of `amount` at `now`, where nothing overflows.
    pub open spec fn updated(self, now: int, amount: int) -> FeeStatsView {
        let tpm = spec_ring_sum(self.transfers_at(now));
        let average = spec_average(self.avg_transfer_size, self.total_transfers, amount)->0;
        let tps = if tpm / 60 < 65_535 {
            tpm / 60
        } else {
            65_535
        };
        FeeStatsView {
            total_fees_collected: self.total_fees_collected,
            total_transfers: self.total_transfers,
            total_volume: self.total_volume,
            current_fee_basis_points: spec_next_fee(
                tpm,
                self.current_fee_basis_points,
                self.base_fee_basis_points,
                self.max_fee_basis_points,
                spec_is_burst(amount, average),
            ),
            base_fee_basis_points: self.base_fee_basis_points,
            max_fee_basis_points: self.max_fee_basis_points,
            recent_transfers: self.transfers_at(now),
            recent_volumes: self.volumes_at(now, amount),
            current_minute_slot: self.slot_at(now),
            last_update_timestamp: if now - self.last_update_timestamp >= 60 {
                now
            } else {
                self.last_update_timestamp
            },
            peak_tps: if tps > self.peak_tps {
                tps
            } else {
                self.peak_tps
            },
            avg_transfer_size: average,
        }
    }
}

impl FeeStatsView {
    /// The record as a first transfer at `now` finds it: a record that has counted no
    /// transfer yet gets the initial base, current and highest fee, and `now` as the time
    /// of its last move.
    pub open spec fn seeded(self, now: int) -> FeeStatsView {
        if self.total_transfers == 0 {
            FeeStatsView {
                base_fee_basis_points: 10,
                current_fee_basis_points: 10,
                max_fee_basis_points: 300,
                last_update_timestamp: now,
                ..self
            }
        } else {
            self
        }
    }

    /// Whether recording a transfer of `amount` at `now` takes a counter beyond 64 bits.
    pub open spec fn record_overflows(self, now: int, amount: int) -> bool {
        ||| self.seeded(now).overflows(now, amount)
        ||| self.total_transfers + 1 > u64::MAX
        ||| self.total_volume + amount > u64::MAX
    }

    /// The record once a transfer of `amount` at `now` is recorded.
    pub open spec fn recorded(self, now: int, amount: int) -> FeeStatsView {
        let updated = self.seeded(now).updated(now, amount);
        FeeStatsView {
            total_transfers: self.total_transfers + 1,
            total_volume: self.total_volume + amount,
            ..updated
        }
    }
}

impl DynamicFeeStats {
    /// The current slot is one of the six.
    pub open spec fn wf(&self) -> bool {
        self.current_minute_slot < 6
    }

    /// An empty record, as it is before the first transfer.
    pub fn new() -> (stats: DynamicFeeStats)
        ensures
            stats.wf(),
            stats.total_transfers == 0,
            stats.current_minute_slot == 0,
            stats.recent_transfers@ =~= seq![0u64, 0u64, 0u64, 0u64, 0u64, 0u64],
            stats.recent_volumes@ =~= seq![0u64, 0u64, 0u64, 0u64, 0u64, 0u64],
            stats.total_fees_collected == 0 && stats.total_volume == 0
                && stats.current_fee_basis_points == 0 && stats.base_fee_basis_points == 0
                && stats.max_fee_basis_points == 0 && stats.last_update_timestamp == 0
                && stats.peak_tps == 0 && stats.avg_transfer_size == 0,
    {
        DynamicFeeStats {
            total_fees_collected: 0,
            total_transfers: 0,
            total_volume: 0,
            current_fee_basis_points: 0,
            base_fee_basis_points: 0,
            max_fee_basis_points: 0,
            recent_transfers: [0, 0, 0, 0, 0, 0],
            recent_volumes: [0, 0, 0, 0, 0, 0],
            current_minute_slot: 0,
            last_update_timestamp: 0,
            peak_tps: 0,
            avg_transfer_size: 0,
        }
    }

    /// The number of transfers counted in the window.
    pub fn window_transfers(&self) -> (tpm: u128)
        ensures
            tpm == spec_ring_sum(self@.recent_transfers),
    {
        self.recent_transfers[0] as u128 + self.recent_transfers[1] as u128
            + self.recent_transfers[2] as u128 + self.recent_transfers[3] as u128
            + self.recent_transfers[4] as u128 + self.recent_transfers[5] as u128
    }
}

/// Moves the window on by `steps` slots from `slot`, emptying each slot it passes over.
fn advance_window(transfers: &mut [u64; 6], volumes: &mut [u64; 6], slot: u8, steps: u8) -> (now_at:
    u8)
    requires
        slot < 6,
        steps <= 6,
    ensures
        now_at == (slot + steps) % 6,
        forall|j: int|
            0 <= j < 6 ==> final(transfers)@[j] == (if spec_slot_cleared(
                slot as int,
                steps as int,
                j,
            ) {
                0
            } else {
                old(transfers)@[j]
            }),
        forall|j: int|
            0 <= j < 6 ==> final(volumes)@[j] == (if spec_slot_cleared(
                slot as int,
                steps as int,
                j,
            ) {
                0
            } else {
                old(volumes)@[j]
            }),
{
    let ghost transfers_before = transfers@;
    let ghost volumes_before = volumes@;
    let mut at: u8 = slot;
    let mut done: u8 = 0;
    while done < steps
        invariant
            done <= steps <= 6,
            slot < 6,
            at == (slot + done) % 6,
            forall|j: int|
                0 <= j < 6 ==> transfers@[j] == (if spec_slot_cleared(slot as int, done as int, j) {
                    0
                } else {
                    transfers_before[j]
                }),
            forall|j: int|
                0 <= j < 6 ==> volumes@[j] == (if spec_slot_cleared(slot as int, done as int, j) {
                    0
                } else {
                    volumes_before[j]
                }),
        decreases steps - done,
    {
        at = (at + 1) % 6;
        transfers[at as usize] = 0;
        volumes[at as usize] = 0;
        done = done + 1;
        assert forall|j: int| 0 <= j < 6 implies spec_slot_cleared(slot as int, done as int, j) == (
        spec_slot_cleared(slot as int, done as int - 1, j) || j == at) by {}
    }
    at
}

/// Counts a transfer of `amount` at `current_timestamp` and sets the fee that the rate of
/// transfers in the window calls for. The window first moves on by one slot for each
/// whole minute since the last move; the transfer joins the current slot; the fee takes
/// one step of at most the base fee towards the tier of the rate, and half as much again
/// for a transfer of more than ten times the average size; it never exceeds the maximum.
/// Where a counter would overflow the record is left as it was.
pub fn update_velocity_and_calculate_fee(
    fee_stats: &mut DynamicFeeStats,
    current_timestamp: i64,
    amount: u64,
) -> (fee: Result<u16, DynamicFeeError>)
    requires
        old(fee_stats).wf(),
    ensures
        final(fee_stats).wf(),
        old(fee_stats)@.overflows(current_timestamp as int, amount as int) ==> fee == Err::<
            u16,
            DynamicFeeError,
        >(DynamicFeeError::MathOverflow) && *final(fee_stats) == *old(fee_stats),
        !old(fee_stats)@.overflows(current_timestamp as int, amount as int) ==> final(fee_stats)@
            == old(fee_stats)@.updated(current_timestamp as int, amount as int) && fee == Ok::<
            u16,
            DynamicFeeError,
        >(final(fee_stats).current_fee_basis_points),
        fee matches Ok(f) ==> f <= old(fee_stats).max_fee_basis_points,
{
    let ghost before = fee_stats@;
    let ghost now = current_timestamp as int;
    let time_diff: i128 = current_timestamp as i128 - fee_stats.last_update_timestamp as i128;
    let mut transfers: [u64; 6] = fee_stats.recent_transfers;
    let mut volumes: [u64; 6] = fee_stats.recent_volumes;
    let mut slot: u8 = fee_stats.current_minute_slot;
    let mut last_update: i64 = fee_stats.last_update_timestamp;
    if time_diff >= 60 {
        let minutes: i128 = time_diff / 60;
        let steps: u8 = if minutes < 6 {
            minutes as u8
        } else {
            6
        };
        slot = advance_window(&mut transfers, &mut volumes, slot, steps);
        last_update = current_timestamp;
    }
    assert(slot == before.slot_at(now));
    let at: usize = slot as usize;
    if transfers[at] == u64::MAX {
        return Err(DynamicFeeError::MathOverflow);
    }
    if amount > u64::MAX - volumes[at] {
        return Err(DynamicFeeError::MathOverflow);
    }
    transfers[at] = transfers[at] + 1;
    volumes[at] = volumes[at] + amount;
    let ghost transfers_view = Seq::new(6, |j: int| transfers@[j] as int);
    let ghost volumes_view = Seq::new(6, |j: int| volumes@[j] as int);
    assert(transfers_view =~= before.transfers_at(now));
    assert(volumes_view =~= before.volumes_at(now, amount as int));
    let tpm: u128 = transfers[0] as u128 + transfers[1] as u128 + transfers[2] as u128
        + transfers[3] as u128 + transfers[4] as u128 + transfers[5] as u128;
    assert(tpm == spec_ring_sum(before.transfers_at(now)));
    let total: u64 = fee_stats.total_transfers;
    let average: u64 = if total > 0 {
        assert(fee_stats.avg_transfer_size * total <= 0xffff_ffff_ffff_ffff
            * 0xffff_ffff_ffff_ffff) by (nonlinear_arith)
            requires
                fee_stats.avg_transfer_size <= 0xffff_ffff_ffff_ffff,
                total <= 0xffff_ffff_ffff_ffff,
        ;
        let sum: u128 = (fee_stats.avg_transfer_size as u128) * (total as u128) + amount as u128;
        if sum > u64::MAX as u128 || total == u64::MAX {
            return Err(DynamicFeeError::MathOverflow);
        }
        (sum / (total as u128 + 1)) as u64
    } else {
        amount
    };
    let base: u32 = fee_stats.base_fee_basis_points as u32;
    let max: u32 = fee_stats.max_fee_basis_points as u32;
    let current: u32 = fee_stats.current_fee_basis_points as u32;
    let target: u32 = if tpm <= 10 {
        base
    } else if tpm <= 30 {
        base * 2
    } else if tpm <= 60 {
        base * 5
    } else if tpm <= 120 {
        base * 12
    } else {
        max
    };
    let smoothed: u32 = if target > current {
        if target < current + base {
            target
        } else {
            current + base
        }
    } else {
        let floor: u32 = if current >= base {
            current - base
        } else {
            0
        };
        if target > floor {
            target
        } else {
            floor
        }
    };
    let mut next: u32 = if smoothed < max {
        smoothed
    } else {
        max
    };
    let per_second: u128 = tpm / 60;
    let current_tps: u16 = if per_second < 65_535 {
        per_second as u16
    } else {
        65_535
    };
    let peak_tps: u16 = if current_tps > fee_stats.peak_tps {
        current_tps
    } else {
        fee_stats.peak_tps
    };
    if average > 0 && amount as u128 > average as u128 * 10 {
        let raised: u32 = next * 3 / 2;
        next = if raised < max {
            raised
        } else {
            max
        };
    }
    let updated = DynamicFeeStats {
        total_fees_collected: fee_stats.total_fees_collected,
        total_transfers: fee_stats.total_transfers,
        total_volume: fee_stats.total_volume,
        current_fee_basis_points: next as u16,
        base_fee_basis_points: fee_stats.base_fee_basis_points,
        max_fee_basis_points: fee_stats.max_fee_basis_points,
        recent_transfers: transfers,
        recent_volumes: volumes,
        current_minute_slot: slot,
        last_update_timestamp: last_update,
        peak_tps,
        avg_transfer_size: average,
    };
    assert(updated@.recent_transfers =~= before.transfers_at(now));
    assert(updated@.recent_volumes =~= before.volumes_at(now, amount as int));
    assert(updated@ == before.updated(now, amount as int));
    *fee_stats = updated;
    Ok(next as u16)
}

/// Records a transfer of `amount` at `current_timestamp`: a record that has counted no
/// transfer yet first gets its initial fees; the window and the fee are then brought up
/// to date, and the running totals grow by the transfer. Gives the fee now in force.
/// Where a counter would overflow the record is left as it was.
pub fn record_transfer(fee_stats: &mut DynamicFeeStats, current_timestamp: i64, amount: u64) -> (fee:
    Result<u16, DynamicFeeError>)
    requires
        old(fee_stats).wf(),
    ensures
        final(fee_stats).wf(),
        old(fee_stats)@.record_overflows(current_timestamp as int, amount as int) ==> fee == Err::<
            u16,
            DynamicFeeError,
        >(DynamicFeeError::MathOverflow) && *final(fee_stats) == *old(fee_stats),
        !old(fee_stats)@.record_overflows(current_timestamp as int, amount as int) ==> final(fee_stats)@
            == old(fee_stats)@.recorded(current_timestamp as int, amount as int) && fee == Ok::<
            u16,
            DynamicFeeError,
        >(final(fee_stats).current_fee_basis_points),
{
    let mut stats: DynamicFeeStats = *fee_stats;
    if stats.total_transfers == 0 {
        stats.base_fee_basis_points = INITIAL_BASE_FEE;
        stats.current_fee_basis_points = INITIAL_BASE_FEE;
        stats.max_fee_basis_points = INITIAL_MAX_FEE;
        stats.last_update_timestamp = current_timestamp;
    }
    assert(stats@ == fee_stats@.seeded(current_timestamp as int));
    let current_fee = match update_velocity_and_calculate_fee(&mut stats, current_timestamp, amount) {
        Ok(fee) => fee,
        Err(e) => {
            return Err(e);
        },
    };
    if stats.total_transfers == u64::MAX {
        return Err(DynamicFeeError::MathOverflow);
    }
    if amount > u64::MAX - stats.total_volume {
        return Err(DynamicFeeError::MathOverflow);
    }
    stats.total_transfers = stats.total_transfers + 1;
    stats.total_volume = stats.total_volume + amount;
    *fee_stats = stats;
    Ok(current_fee)
}

/// The accounts of one run of the hook: the token account that the transfer leaves, and
/// the fee controller's record.
#[derive(Clone, Debug)]
pub struct TransferHook {
    pub source_token: AccountData,
    pub fee_stats: DynamicFeeStats,
}

impl TransferHook {
    /// The record after the hook has run for a transfer of `amount` at `now`, or why it
    /// does not run: `Err(None)` where the source account cannot be read, else the error.
    pub open spec fn spec_run(&self, now: int, amount: int) -> Result<
        FeeStatsView,
        Option<DynamicFeeError>,
    > {
        match token_account_transferring(self.source_token.data@) {
            None => Err(None),
            Some(false) => Err(Some(DynamicFeeError::InvalidTransferState)),
            Some(true) => if self.fee_stats@.record_overflows(now, amount) {
                Err(Some(DynamicFeeError::MathOverflow))
            } else {
                Ok(self.fee_stats@.recorded(now, amount))
            },
        }
    }
}

/// Whether `done` and the record `after` are what `expected` calls for: the record named
/// on success, and on failure the record as it was (`before`) with the error named, or,
/// for `Err(None)`, with the error of the program that could not read the bytes.
pub open spec fn spec_hook_ran(
    done: Result<(), Error>,
    before: DynamicFeeStats,
    after: DynamicFeeStats,
    expected: Result<FeeStatsView, Option<DynamicFeeError>>,
) -> bool {
    match expected {
        Ok(record) => done is Ok && after@ == record,
        Err(Some(e)) => done == Err::<(), Error>(Error::DynamicFee(e)) && after == before,
        Err(None) => done matches Err(Error::Program(_)) && after == before,
    }
}

/// Whether the hook is called for a transfer that is under way: the source token account
/// must carry the mark of a transfer in progress (`InvalidTransferState`).
pub fn check_transfer_state(ctx: &TransferHook) -> (checked: Result<(), Error>)
    ensures
        match token_account_transferring(ctx.source_token.data@) {
            Some(true) => checked is Ok,
            Some(false) => checked == Err::<(), Error>(
                Error::DynamicFee(DynamicFeeError::InvalidTransferState),
            ),
            None => checked matches Err(Error::Program(_)),
        },
{
    match unpack_transferring(ctx.source_token.data.as_slice()) {
        Err(e) => Err(Error::Program(e)),
        Ok(false) => Err(Error::DynamicFee(DynamicFeeError::InvalidTransferState)),
        Ok(true) => Ok(()),
    }
}

/// Runs the fee controller for a transfer of `amount` at `current_timestamp`. The
/// transfer is recorded only where the source account shows a transfer in progress; on
/// any error the record is left as it was.
pub fn transfer_hook(ctx: &mut TransferHook, current_timestamp: i64, amount: u64) -> (done: Result<
    (),
    Error,
>)
    requires
        old(ctx).fee_stats.wf(),
    ensures
        final(ctx).fee_stats.wf(),
        final(ctx).source_token == old(ctx).source_token,
        spec_hook_ran(
            done,
            old(ctx).fee_stats,
            final(ctx).fee_stats,
            old(ctx).spec_run(current_timestamp as int, amount as int),
        ),
{
    match check_transfer_state(ctx) {
        Err(e) => {
            return Err(e);
        },
        Ok(_) => {},
    }
    match record_transfer(&mut ctx.fee_stats, current_timestamp, amount) {
        Ok(_) => Ok(()),
        Err(e) => Err(Error::DynamicFee(e)),
    }
}

/// The amount of the execute instruction that `data` holds: `Err(Some(()))` where `data`
/// does not begin with the mark of an execute instruction, `Err(None)` where it does and
/// fewer than eight bytes follow, else the number that those eight bytes hold, lowest
/// byte first.
pub open spec fn spec_execute_amount(data: Seq<u8>) -> Result<u64, Option<()>> {
    if !execute_tagged(data) {
        Err(Some(()))
    } else if data.len() < 16 {
        Err(None)
    } else {
        Ok(spec_u64_le(data, 8) as u64)
    }
}

/// Reads the amount of an execute instruction of the transfer hook interface out of its
/// bytes. Any other instruction, and bytes that hold none, are refused
/// (`InvalidInstructionData`); an execute instruction that breaks off before its amount
/// is an error of the program that unpacks it.
pub fn execute_amount(data: &[u8]) -> (amount: Result<u64, Error>)
    ensures
        match spec_execute_amount(data@) {
            Ok(a) => amount == Ok::<u64, Error>(a),
            Err(Some(_)) => amount == Err::<u64, Error>(Error::InvalidInstructionData),
            Err(None) => amount matches Err(Error::Program(_)),
        },
{
    if !is_execute_instruction(data) {
        return Err(Error::InvalidInstructionData);
    }
    match unpack_hook_instruction(data) {
        Err(e) => Err(Error::Program(e)),
        Ok(None) => Err(Error::InvalidInstructionData),
        Ok(Some(amount)) => Ok(amount),
    }
}

/// Handles an instruction of the transfer hook interface given as bytes: an execute
/// instruction runs the fee controller with its amount, as [`transfer_hook`] does; where
/// [`execute_amount`] fails, its error is returned and the record is left as it was.
pub fn fallback(ctx: &mut TransferHook, current_timestamp: i64, data: &[u8]) -> (done: Result<
    (),
    Error,
>)
    requires
        old(ctx).fee_stats.wf(),
    ensures
        final(ctx).fee_stats.wf(),
        final(ctx).source_token == old(ctx).source_token,
        match spec_execute_amount(data@) {
            Err(None) => done matches Err(Error::Program(_)) && final(ctx).fee_stats
                == old(ctx).fee_stats,
            Err(Some(_)) => done == Err::<(), Error>(Error::InvalidInstructionData)
                && final(ctx).fee_stats == old(ctx).fee_stats,
            Ok(amount) => spec_hook_ran(
                done,
                old(ctx).fee_stats,
                final(ctx).fee_stats,
                old(ctx).spec_run(current_timestamp as int, amount as int),
            ),
        },
{
    match execute_amount(data) {
        Err(e) => Err(e),
        Ok(amount) => transfer_hook(ctx, current_timestamp, amount),
    }
}

/// After six minutes or more without a transfer the window is empty when the next
/// transfer arrives: once that transfer is counted, its slot holds one transfer and its
/// amount, every other slot holds nothing, and the rate is one transfer in the window.
pub proof fn lemma_silence_clears_window(stats: DynamicFeeStats, now: i64, amount: u64)
    requires
        stats.wf(),
        now - stats.last_update_timestamp >= 360,
    ensures
        stats@.slot_at(now as int) == stats.current_minute_slot,
        forall|j: int|
            0 <= j < 6 ==> stats@.transfers_at(now as int)[j] == (if j
                == stats.current_minute_slot {
                1int
            } else {
                0int
            }),
        forall|j: int|
            0 <= j < 6 ==> stats@.volumes_at(now as int, amount as int)[j] == (if j
                == stats.current_minute_slot {
                amount as int
            } else {
                0int
            }),
        spec_ring_sum(stats@.transfers_at(now as int)) == 1,
        !stats@.overflows(now as int, amount as int) ==> stats@.updated(
            now as int,
            amount as int,
        ).recent_transfers == stats@.transfers_at(now as int),
{
    assert(spec_window_steps(stats.last_update_timestamp as int, now as int) == 6);
    assert forall|j: int| 0 <= j < 6 implies spec_slot_cleared(
        stats.current_minute_slot as int,
        6,
        j,
    ) by {}
}

/// While more than 120 transfers are in the window and no transfer is a burst, each
/// transfer raises the fee by the base fee until the maximum is reached, and never
/// beyond it.
pub proof fn lemma_fee_rises_under_load(tpm: int, current: int, base: int, max: int)
    requires
        tpm > 120,
        0 <= current <= max,
        0 <= base,
    ensures
        spec_next_fee(tpm, current, base, max, false) == spec_capped(current + base, max),
        spec_next_fee(tpm, current, base, max, false) >= current,
{
}

/// The fee after `updates` transfers in a row, none of them a burst, each of which finds
/// more than 120 transfers in the window.
pub open spec fn spec_fee_under_load(updates: nat, current: int, base: int, max: int) -> int
    decreases updates,
{
    if updates == 0 {
        current
    } else {
        spec_next_fee(
            121,
            spec_fee_under_load((updates - 1) as nat, current, base, max),
            base,
            max,
            false,
        )
    }
}

/// Under such a load the fee climbs by the base fee with every transfer and stops at the
/// maximum: it is there as soon as the steps taken cover the distance, which from a fee
/// of 10 to a maximum of 300 in steps of 10 takes 29 transfers.
pub proof fn lemma_fee_reaches_maximum(updates: nat, current: int, base: int, max: int)
    requires
        0 <= current <= max,
        0 <= base,
    ensures
        spec_fee_under_load(updates, current, base, max) == spec_capped(
            current + updates * base,
            max,
        ),
        current + updates * base >= max ==> spec_fee_under_load(updates, current, base, max)
            == max,
    decreases updates,
{
    if updates == 0 {
        assert(updates * base == 0) by (nonlinear_arith)
            requires
                updates == 0,
        ;
    } else {
        let before = (updates - 1) as nat;
        lemma_fee_reaches_maximum(before, current, base, max);
        let fee = spec_fee_under_load(before, current, base, max);
        assert(0 <= before * base && updates * base == before * base + base) by (nonlinear_arith)
            requires
                updates == before + 1,
                0 <= base,
        ;
        assert(0 <= fee <= max);
        lemma_fee_rises_under_load(121, fee, base, max);
        assert(spec_fee_under_load(updates, current, base, max) == spec_next_fee(
            121,
            fee,
            base,
            max,
            false,
        ));
    }
}

/// The record after `count` transfers of `amount` each, all at `now`, have been recorded
/// one after another, beginning with `record`.
pub open spec fn spec_recorded_run(record: FeeStatsView, now: int, amount: int, count: nat) -> FeeStatsView
    decreases count,
{
    if count == 0 {
        record
    } else {
        spec_recorded_run(record, now, amount, (count - 1) as nat).recorded(now, amount)
    }
}

/// Whether a record has counted no transfer yet and its window is empty, with the first
/// slot current.
pub open spec fn spec_fresh(record: FeeStatsView) -> bool {
    &&& record.total_transfers == 0
    &&& record.total_volume == 0
    &&& record.current_minute_slot == 0
    &&& record.recent_transfers =~= seq![0int, 0int, 0int, 0int, 0int, 0int]
    &&& record.recent_volumes =~= seq![0int, 0int, 0int, 0int, 0int, 0int]
}

/// The fee in force after the `count`-th transfer of a burst that a fresh record meets
/// within one minute: 10 up to the tenth transfer, 20 up to the thirtieth, then by steps
/// of 10 up to 50, from the sixty-first by steps of 10 up to 120, and from the 121st by
/// steps of 10 up to 300.
pub open spec fn spec_burst_fee(count: int) -> int {
    if count <= 10 {
        10
    } else if count <= 30 {
        20
    } else if count <= 60 {
        spec_capped(20 + 10 * (count - 30), 50)
    } else if count <= 120 {
        spec_capped(50 + 10 * (count - 60), 120)
    } else {
        spec_capped(120 + 10 * (count - 120), 300)
    }
}

/// The fee of a burst never falls, rises by exactly 10 where it rises, stays between 10
/// and 300, and is 300 from the 138th transfer on: 29 rises of 10 from the initial 10.
pub proof fn lemma_burst_fee_shape(count: int)
    requires
        count >= 0,
    ensures
        10 <= spec_burst_fee(count) <= 300,
        spec_burst_fee(count + 1) == spec_burst_fee(count) || spec_burst_fee(count + 1)
            == spec_burst_fee(count) + 10,
        count >= 138 ==> spec_burst_fee(count) == 300,
        spec_burst_fee(0) == 10 && spec_burst_fee(138) == 10 + 29 * 10,
{
}

/// Whether `record` is what a fresh record has become after `count` transfers of `amount`
/// each, all at `now`, as far as the next fee depends on it.
pub open spec fn spec_in_burst(record: FeeStatsView, now: int, amount: int, count: int) -> bool {
    &&& record.total_transfers == count
    &&& record.total_volume == count * amount
    &&& record.base_fee_basis_points == 10
    &&& record.max_fee_basis_points == 300
    &&& record.current_fee_basis_points == spec_burst_fee(count)
    &&& record.current_minute_slot == 0
    &&& record.last_update_timestamp == now
    &&& record.avg_transfer_size == amount
    &&& record.recent_transfers =~= seq![count, 0int, 0int, 0int, 0int, 0int]
    &&& record.recent_volumes =~= seq![count * amount, 0int, 0int, 0int, 0int, 0int]
}

/// A burst drives the fee to the maximum step by step: when a fresh record meets `count`
/// transfers of one amount at one reading of the clock, every one of them is recorded,
/// and the fee in force after the last is [`spec_burst_fee`] of `count`, which
/// [`lemma_burst_fee_shape`] describes: it has reached 300 with the 138th transfer and
/// stays there.
pub proof fn lemma_burst_drives_fee_to_maximum(fresh: DynamicFeeStats, now: i64, amount: u64, count: nat)
    requires
        spec_fresh(fresh@),
        1 <= count <= u64::MAX,
        count * amount <= u64::MAX,
    ensures
        !spec_recorded_run(fresh@, now as int, amount as int, (count - 1) as nat).record_overflows(
            now as int,
            amount as int,
        ),
        spec_in_burst(
            spec_recorded_run(fresh@, now as int, amount as int, count),
            now as int,
            amount as int,
            count as int,
        ),
        spec_recorded_run(
            fresh@,
            now as int,
            amount as int,
            count,
        ).current_fee_basis_points == spec_burst_fee(count as int),
        count >= 138 ==> spec_recorded_run(
            fresh@,
            now as int,
            amount as int,
            count,
        ).current_fee_basis_points == 300,
    decreases count,
{
    let t = now as int;
    let a = amount as int;
    let before = spec_recorded_run(fresh@, t, a, (count - 1) as nat);
    let after = spec_recorded_run(fresh@, t, a, count);
    assert(after == before.recorded(t, a));
    let done = count - 1;
    assert(0 <= done * a && done * a + a == count * a) by (nonlinear_arith)
        requires
            done == count - 1,
            count >= 1,
            a >= 0,
    ;
    if count == 1 {
        assert(before == fresh@);
    } else {
        lemma_burst_drives_fee_to_maximum(fresh, now, amount, (count - 1) as nat);
        assert(spec_in_burst(before, t, a, done));
    }
    let found = before.seeded(t);
    assert(found.total_transfers == done);
    assert(found.base_fee_basis_points == 10 && found.max_fee_basis_points == 300);
    assert(found.current_fee_basis_points == spec_burst_fee(done));
    assert(found.last_update_timestamp == t);
    assert(found.current_minute_slot == 0);
    assert(spec_window_steps(t, t) == 0);
    assert(found.slot_at(t) == 0);
    let ring = spec_ring_advanced(found.recent_transfers, 0, 0);
    assert(ring =~= found.recent_transfers) by {
        assert forall|j: int| 0 <= j < 6 implies !spec_slot_cleared(0, 0, j) by {}
    }
    let volumes = spec_ring_advanced(found.recent_volumes, 0, 0);
    assert(volumes =~= found.recent_volumes) by {
        assert forall|j: int| 0 <= j < 6 implies !spec_slot_cleared(0, 0, j) by {}
    }
    assert(found.transfers_at(t) =~= seq![count as int, 0int, 0int, 0int, 0int, 0int]);
    assert(found.volumes_at(t, a) =~= seq![count * a, 0int, 0int, 0int, 0int, 0int]);
    assert(spec_ring_sum(found.transfers_at(t)) == count);
    if done > 0 {
        assert(found.avg_transfer_size == a);
        assert(a * done + a == a * (done + 1) && (a * (done + 1)) / (done + 1) == a
            && a * done + a == count * a) by (nonlinear_arith)
            requires
                done >= 0,
                a >= 0,
                count == done + 1,
        ;
    }
    assert(spec_average(found.avg_transfer_size, found.total_transfers, a) == Some(a));
    assert(!spec_is_burst(a, a));
    lemma_burst_fee_shape(done);
    assert(spec_next_fee(count as int, spec_burst_fee(done), 10, 300, false) == spec_burst_fee(
        count as int,
    ));
    assert(!found.overflows(t, a));
    lemma_burst_fee_shape(count as int);
}

} // verus!
