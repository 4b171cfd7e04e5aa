//! The sink that counts messages and reports their rate.

use vstd::prelude::*;

verus! {

/// Seconds between two reports.
pub const REPORT_EVERY_SECONDS: u64 = 30;

/// What is reported: how many messages came since the last report, and how
/// many that is in a minute.
#[derive(Clone, Copy, Debug, PartialEq, Eq, Structural)]
pub struct MetricsReport {
    pub count: u64,
    pub per_minute: u64,
    pub seconds: u64,
}

/// The counter.
#[derive(Clone, Copy, Debug, PartialEq, Eq, Structural)]
pub struct ConsoleMetricsWorker {
    pub count: u64,
}

impl ConsoleMetricsWorker {
    /// A counter at zero.
    pub fn new() -> (r: Self)
        ensures
            r.count == 0,
    {
        ConsoleMetricsWorker { count: 0 }
    }

    /// Counts one message that came `elapsed_millis` milliseconds after
    /// the last report. Once more than thirty seconds have gone by, the
    /// count is reported and starts again at zero.
    pub fn on_message(&mut self, elapsed_millis: u64) -> (r: Option<MetricsReport>)
        requires
            old(self).count < u64::MAX / 60,
        ensures
            elapsed_millis > REPORT_EVERY_SECONDS * 1000 ==> final(self).count == 0 && r == Some(
                MetricsReport {
                    count: (old(self).count + 1) as u64,
                    per_minute: ((old(self).count + 1) * 60 / REPORT_EVERY_SECONDS as int) as u64,
                    seconds: REPORT_EVERY_SECONDS,
                },
            ),
            elapsed_millis <= REPORT_EVERY_SECONDS * 1000 ==> final(self).count == old(
                self,
            ).count + 1 && r is None,
    {
        self.count += 1;
        if elapsed_millis > REPORT_EVERY_SECONDS * 1000 {
            let report = MetricsReport {
                count: self.count,
                per_minute: (self.count * 60) / REPORT_EVERY_SECONDS,
                seconds: REPORT_EVERY_SECONDS,
            };
            self.count = 0;
            Some(report)
        } else {
            None
        }
    }
}

} // verus!
