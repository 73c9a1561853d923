use vstd::prelude::*;

verus! {

/// One processor as the host reports it; every field is only shown.
pub struct CpuRecord {
    pub name: String,
    /// Clock frequency in MHz.
    pub frequency: u64,
    pub brand: String,
    pub vendor_id: String,
}

pub ghost struct CpuView {
    pub name: Seq<char>,
    pub frequency: nat,
    pub brand: Seq<char>,
    pub vendor_id: Seq<char>,
}

impl View for CpuRecord {
    type V = CpuView;

    open spec fn view(&self) -> CpuView {
        CpuView {
            name: self.name@,
            frequency: self.frequency as nat,
            brand: self.brand@,
            vendor_id: self.vendor_id@,
        }
    }
}

/// All host metrics of one refresh. A new snapshot replaces the old one whole.
pub struct MetricsSnapshot {
    pub total_memory: u64,
    pub used_memory: u64,
    pub total_swap: u64,
    pub used_swap: u64,
    pub os_name: Option<String>,
    pub kernel_version: Option<String>,
    pub os_version: Option<String>,
    pub host_name: Option<String>,
    /// In the order the host lists them.
    pub cpus: Vec<CpuRecord>,
}

pub ghost struct SnapshotView {
    pub total_memory: nat,
    pub used_memory: nat,
    pub total_swap: nat,
    pub used_swap: nat,
    pub os_name: Option<Seq<char>>,
    pub kernel_version: Option<Seq<char>>,
    pub os_version: Option<Seq<char>>,
    pub host_name: Option<Seq<char>>,
    pub cpus: Seq<CpuView>,
}

pub open spec fn text_view(o: Option<String>) -> Option<Seq<char>> {
    match o {
        Some(s) => Some(s@),
        None => None,
    }
}

impl View for MetricsSnapshot {
    type V = SnapshotView;

    open spec fn view(&self) -> SnapshotView {
        SnapshotView {
            total_memory: self.total_memory as nat,
            used_memory: self.used_memory as nat,
            total_swap: self.total_swap as nat,
            used_swap: self.used_swap as nat,
            os_name: text_view(self.os_name),
            kernel_version: text_view(self.kernel_version),
            os_version: text_view(self.os_version),
            host_name: text_view(self.host_name),
            cpus: self.cpus@.map_values(|c: CpuRecord| c@),
        }
    }
}

} // verus!
