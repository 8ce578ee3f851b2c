//! Clone progress accounting: the blended percentage, its bounds and
//! monotonicity, and the clamped emitter that keeps every emitted
//! percentage non-decreasing and within `[0, 100]`.

use vstd::prelude::*;
use crate::gitio::send_to_sink;
use crate::text::{dec_seq, u64_to_string};
use crate::types::{CloneProgress, CloneStage, NetworkProgress};

verus! {

pub open spec fn spec_min(a: nat, b: nat) -> nat {
    if a <= b {
        a
    } else {
        b
    }
}

/// The blended clone percentage: 10 points for connecting, 70 scaled by
/// received objects, 20 scaled by indexed objects; 0 before the object
/// count is known.  Counters are clamped at the total, so the blend never
/// leaves `[0, 100]`.
pub open spec fn blended_percent(received: nat, indexed: nat, total: nat) -> nat {
    if total == 0 {
        0
    } else {
        10 + (spec_min(received, total) * 70) / total + (spec_min(indexed, total) * 20) / total
    }
}

/// The blended percentage is bounded: 0 with no known total, otherwise
/// between 10 and 100.
pub proof fn lemma_blended_percent_bounds(received: nat, indexed: nat, total: nat)
    ensures
        total == 0 ==> blended_percent(received, indexed, total) == 0,
        total > 0 ==> 10 <= blended_percent(received, indexed, total) <= 100,
{
    if total > 0 {
        assert((spec_min(received, total) * 70) / total <= 70) by (nonlinear_arith)
            requires
                total > 0,
                spec_min(received, total) <= total,
        ;
        assert((spec_min(indexed, total) * 20) / total <= 20) by (nonlinear_arith)
            requires
                total > 0,
                spec_min(indexed, total) <= total,
        ;
    }
}

/// With a fixed total, the blended percentage never falls as the counters
/// grow.
pub proof fn lemma_blended_percent_monotone(r1: nat, i1: nat, r2: nat, i2: nat, total: nat)
    requires
        r1 <= r2,
        i1 <= i2,
    ensures
        blended_percent(r1, i1, total) <= blended_percent(r2, i2, total),
{
    if total > 0 {
        assert((spec_min(r1, total) * 70) / total <= (spec_min(r2, total) * 70) / total)
            by (nonlinear_arith)
            requires
                total > 0,
                spec_min(r1, total) <= spec_min(r2, total),
        ;
        assert((spec_min(i1, total) * 20) / total <= (spec_min(i2, total) * 20) / total)
            by (nonlinear_arith)
            requires
                total > 0,
                spec_min(i1, total) <= spec_min(i2, total),
        ;
    }
}

/// The message shown while objects are downloaded.
pub open spec fn progress_message_spec(np: &NetworkProgress) -> Seq<char> {
    if np.total_objects == 0 {
        "Preparing download..."@
    } else {
        "Downloading objects: "@ + dec_seq(np.received_objects as nat) + "/"@ + dec_seq(
            np.total_objects as nat,
        ) + " ("@ + dec_seq((np.received_bytes * 10 / 1048576) as nat / 10) + "."@ + dec_seq(
            (np.received_bytes * 10 / 1048576) as nat % 10,
        ) + " MB)"@
    }
}

/// Network progress accounting for one clone in flight.
pub struct ProgressData {
    pub network_progress: NetworkProgress,
}

impl ProgressData {
    pub fn new() -> (r: ProgressData)
        ensures
            r.network_progress.received_bytes == 0,
            r.network_progress.received_objects == 0,
            r.network_progress.total_objects == 0,
            r.network_progress.indexed_objects == 0,
    {
        ProgressData {
            network_progress: NetworkProgress {
                received_bytes: 0,
                received_objects: 0,
                total_objects: 0,
                indexed_objects: 0,
            },
        }
    }

    /// Replaces the counters with the transfer's current ones.
    pub fn update_network_progress(
        &mut self,
        received_bytes: usize,
        received_objects: usize,
        total_objects: usize,
        indexed_objects: usize,
    )
        ensures
            final(self).network_progress.received_bytes == received_bytes,
            final(self).network_progress.received_objects == received_objects,
            final(self).network_progress.total_objects == total_objects,
            final(self).network_progress.indexed_objects == indexed_objects,
    {
        self.network_progress = NetworkProgress {
            received_bytes,
            received_objects,
            total_objects,
            indexed_objects,
        };
    }

    /// The blended percentage for the current counters.
    pub fn calculate_progress(&self) -> (r: u32)
        ensures
            r as nat == blended_percent(
                self.network_progress.received_objects as nat,
                self.network_progress.indexed_objects as nat,
                self.network_progress.total_objects as nat,
            ),
            r <= 100,
    {
        let total = self.network_progress.total_objects;
        if total == 0 {
            return 0;
        }
        let received = if self.network_progress.received_objects <= total {
            self.network_progress.received_objects
        } else {
            total
        };
        let indexed = if self.network_progress.indexed_objects <= total {
            self.network_progress.indexed_objects
        } else {
            total
        };
        proof {
            lemma_blended_percent_bounds(
                self.network_progress.received_objects as nat,
                self.network_progress.indexed_objects as nat,
                total as nat,
            );
        }
        let down: u128 = (received as u128) * 70 / (total as u128);
        let idx: u128 = (indexed as u128) * 20 / (total as u128);
        proof {
            assert((received as nat * 70) / (total as nat) <= 70) by (nonlinear_arith)
                requires
                    total > 0,
                    received <= total,
            ;
            assert((indexed as nat * 20) / (total as nat) <= 20) by (nonlinear_arith)
                requires
                    total > 0,
                    indexed <= total,
            ;
        }
        10 + (down as u32) + (idx as u32)
    }

    /// The human-readable download message for the current counters.
    pub fn get_message(&self) -> (r: String)
        ensures
            r@ == progress_message_spec(&self.network_progress),
    {
        let total = self.network_progress.total_objects;
        if total == 0 {
            return String::from_str("Preparing download...");
        }
        let bytes = self.network_progress.received_bytes;
        proof {
            assert((bytes as nat * 10) / 1048576 <= bytes as nat) by (nonlinear_arith);
        }
        let tenths: u64 = ((bytes as u128) * 10 / 1048576) as u64;
        let mut out = String::from_str("Downloading objects: ");
        out.append(u64_to_string(self.network_progress.received_objects as u64).as_str());
        out.append("/");
        out.append(u64_to_string(total as u64).as_str());
        out.append(" (");
        out.append(u64_to_string(tenths / 10).as_str());
        out.append(".");
        out.append(u64_to_string(tenths % 10).as_str());
        out.append(" MB)");
        out
    }
}

/// Emits progress records to the sink for one operation id, clamping the
/// percentage so that the emitted sequence is non-decreasing and bounded
/// by 100, and recording when a terminal stage (`Completed` or `Error`)
/// has been sent.
pub struct ProgressEmitter {
    pub sink: std::sync::mpsc::Sender<CloneProgress>,
    pub id: String,
    pub last_percent: u32,
    pub terminal: bool,
}

impl ProgressEmitter {
    pub open spec fn wf(&self) -> bool {
        self.last_percent <= 100
    }

    pub fn new(sink: std::sync::mpsc::Sender<CloneProgress>, id: String) -> (r: ProgressEmitter)
        ensures
            r.wf(),
            r.last_percent == 0,
            !r.terminal,
            r.id == id,
    {
        ProgressEmitter { sink, id, last_percent: 0, terminal: false }
    }

    /// An emitter whose percentages start at `floor`: everything it
    /// emits will be at least that much.
    pub fn new_with_floor(
        sink: std::sync::mpsc::Sender<CloneProgress>,
        id: String,
        floor: u32,
    ) -> (r: ProgressEmitter)
        requires
            floor <= 100,
        ensures
            r.wf(),
            r.last_percent == floor,
            !r.terminal,
            r.id == id,
    {
        ProgressEmitter { sink, id, last_percent: floor, terminal: false }
    }

    /// Raises the emitter's floor, for when records may have been
    /// emitted out of band (the transfer callback) up to `floor`.
    pub fn raise_floor(&mut self, floor: u32)
        requires
            old(self).wf(),
        ensures
            final(self).wf(),
            final(self).last_percent == if floor > 100 {
                100u32
            } else if floor > old(self).last_percent {
                floor
            } else {
                old(self).last_percent
            },
            final(self).id == old(self).id,
            final(self).terminal == old(self).terminal,
    {
        let f = if floor > 100 {
            100
        } else {
            floor
        };
        if f > self.last_percent {
            self.last_percent = f;
        }
    }

    /// Sends one record.  The emitted percentage is `percent`, clamped
    /// below by everything already emitted and above by 100, so emitted
    /// percentages never decrease.  A terminal stage (`Completed` or
    /// `Error`) is recorded, and nothing may be emitted after one.
    pub fn emit(
        &mut self,
        stage: CloneStage,
        percent: u32,
        message: String,
        network_progress: Option<NetworkProgress>,
    )
        requires
            !old(self).terminal,
        ensures
            final(self).wf(),
            old(self).wf() ==> final(self).last_percent >= old(self).last_percent,
            old(self).wf() ==> final(self).last_percent == if percent > 100 {
                100u32
            } else if percent < old(self).last_percent {
                old(self).last_percent
            } else {
                percent
            },
            final(self).id == old(self).id,
            final(self).terminal == (old(self).terminal || stage == CloneStage::Completed || stage
                == CloneStage::Error),
            stage == CloneStage::Completed && percent >= 100 ==> final(self).last_percent == 100,
    {
        let base = if percent < self.last_percent {
            self.last_percent
        } else {
            percent
        };
        let p = if base > 100 {
            100
        } else {
            base
        };
        self.last_percent = p;
        if matches!(stage, CloneStage::Completed | CloneStage::Error) {
            self.terminal = true;
        }
        let ev = CloneProgress {
            id: self.id.clone(),
            stage,
            progress: p,
            message,
            network_progress,
            checkout_progress: None,
        };
        send_to_sink(&self.sink, ev);
    }
}

/// Handles one transfer-progress callback from the embedded library:
/// refreshes the counters and emits one `Downloading` record.  Always
/// asks the transfer to continue.
pub fn on_transfer(
    data: &mut ProgressData,
    emitter: &mut ProgressEmitter,
    received_bytes: usize,
    received_objects: usize,
    total_objects: usize,
    indexed_objects: usize,
) -> (r: bool)
    ensures
        old(emitter).wf() ==> final(emitter).last_percent >= old(emitter).last_percent,
        old(emitter).wf() ==> final(emitter).wf(),
        !old(emitter).terminal ==> final(emitter).wf(),
        r == true,
{
    if emitter.terminal {
        // a terminal record has been sent; report nothing more
        return true;
    }
    data.update_network_progress(
        received_bytes,
        received_objects,
        total_objects,
        indexed_objects,
    );
    let p = data.calculate_progress();
    let msg = data.get_message();
    let np = NetworkProgress {
        received_bytes,
        received_objects,
        total_objects,
        indexed_objects,
    };
    emitter.emit(CloneStage::Downloading, p, msg, Some(np));
    true
}

} // verus!
