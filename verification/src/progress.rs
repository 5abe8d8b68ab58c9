use vstd::prelude::*;

verus! {

/// Where an install stands when it reports.
#[derive(Clone, Copy, Debug, PartialEq, Eq, Structural)]
pub enum DownloadStatus {
    Starting,
    Downloading,
    Extracting,
    Complete,
}

impl DownloadStatus {
    /// The words shown for this status.
    pub open spec fn label_text(self) -> Seq<char> {
        match self {
            DownloadStatus::Starting => "Starting download..."@,
            DownloadStatus::Downloading => "Downloading..."@,
            DownloadStatus::Extracting => "Extracting..."@,
            DownloadStatus::Complete => "Complete!"@,
        }
    }

    /// The words shown for this status.
    pub fn label(self) -> (words: &'static str)
        ensures
            words@ == self.label_text(),
    {
        match self {
            DownloadStatus::Starting => "Starting download...",
            DownloadStatus::Downloading => "Downloading...",
            DownloadStatus::Extracting => "Extracting...",
            DownloadStatus::Complete => "Complete!",
        }
    }
}

/// A percentage kept exactly, as `part` of `whole`: it stands for
/// `100 * part / whole` percent. `whole` is never 0.
#[derive(Clone, Copy, Debug, PartialEq, Eq, Structural)]
pub struct Percentage {
    pub part: u64,
    pub whole: u64,
}

impl Percentage {
    /// The percentage has a value.
    pub open spec fn wf(self) -> bool {
        self.whole > 0
    }

    /// The percentage is 0.
    pub open spec fn is_zero(self) -> bool {
        self.part == 0
    }

    /// The percentage is 100.
    pub open spec fn is_full(self) -> bool {
        self.part == self.whole
    }

    /// 0 percent.
    pub open spec fn zero() -> Percentage {
        Percentage { part: 0, whole: 1 }
    }

    /// 100 percent.
    pub open spec fn full() -> Percentage {
        Percentage { part: 1, whole: 1 }
    }

    /// The share that `downloaded` bytes are of `total`; 0 percent where
    /// the total is not known, which `total == 0` says.
    pub open spec fn share(downloaded: u64, total: u64) -> Percentage {
        if total > 0 {
            Percentage { part: downloaded, whole: total }
        } else {
            Percentage::zero()
        }
    }
}

/// A snapshot of an install in progress. `total_bytes` is 0 where the
/// length of the download is not known.
#[derive(Clone, Copy, Debug, PartialEq, Eq, Structural)]
pub struct DownloadProgress {
    pub downloaded_bytes: u64,
    pub total_bytes: u64,
    pub percentage: Percentage,
    pub status: DownloadStatus,
}

/// The report made before anything is downloaded.
pub open spec fn starting_report() -> DownloadProgress {
    DownloadProgress {
        downloaded_bytes: 0,
        total_bytes: 0,
        percentage: Percentage::zero(),
        status: DownloadStatus::Starting,
    }
}

/// The report made once `downloaded` bytes of `total` are stored.
pub open spec fn downloading_report(downloaded: u64, total: u64) -> DownloadProgress {
    DownloadProgress {
        downloaded_bytes: downloaded,
        total_bytes: total,
        percentage: Percentage::share(downloaded, total),
        status: DownloadStatus::Downloading,
    }
}

/// The report made when the download has ended and the archive is about
/// to be unpacked.
pub open spec fn extracting_report(total: u64) -> DownloadProgress {
    DownloadProgress {
        downloaded_bytes: total,
        total_bytes: total,
        percentage: Percentage::full(),
        status: DownloadStatus::Extracting,
    }
}

/// The report made when the install is done.
pub open spec fn complete_report(total: u64) -> DownloadProgress {
    DownloadProgress {
        downloaded_bytes: total,
        total_bytes: total,
        percentage: Percentage::full(),
        status: DownloadStatus::Complete,
    }
}

impl DownloadProgress {
    /// The report made before anything is downloaded.
    pub fn starting() -> (report: DownloadProgress)
        ensures
            report == starting_report(),
    {
        DownloadProgress {
            downloaded_bytes: 0,
            total_bytes: 0,
            percentage: Percentage { part: 0, whole: 1 },
            status: DownloadStatus::Starting,
        }
    }

    /// The report made once `downloaded` bytes of `total` are stored.
    pub fn downloading(downloaded: u64, total: u64) -> (report: DownloadProgress)
        ensures
            report == downloading_report(downloaded, total),
    {
        let percentage = if total > 0 {
            Percentage { part: downloaded, whole: total }
        } else {
            Percentage { part: 0, whole: 1 }
        };
        DownloadProgress {
            downloaded_bytes: downloaded,
            total_bytes: total,
            percentage,
            status: DownloadStatus::Downloading,
        }
    }

    /// The report made when the archive is about to be unpacked.
    pub fn extracting(total: u64) -> (report: DownloadProgress)
        ensures
            report == extracting_report(total),
    {
        DownloadProgress {
            downloaded_bytes: total,
            total_bytes: total,
            percentage: Percentage { part: 1, whole: 1 },
            status: DownloadStatus::Extracting,
        }
    }

    /// The report made when the install is done.
    pub fn complete(total: u64) -> (report: DownloadProgress)
        ensures
            report == complete_report(total),
    {
        DownloadProgress {
            downloaded_bytes: total,
            total_bytes: total,
            percentage: Percentage { part: 1, whole: 1 },
            status: DownloadStatus::Complete,
        }
    }
}

} // verus!
