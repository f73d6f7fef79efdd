//! Named-entity records of the snapshot: processes, filesystems, log
//! entries, services and network interfaces.
//!
//! Each record type has a ghost model (its deep view) whose string fields
//! are character sequences, so contracts can speak of record contents
//! without mentioning the executable types.

use vstd::prelude::*;

verus! {

/// One running process.  `cpu` is its CPU share in tenths of a percent.
#[derive(Clone, Debug, PartialEq)]
pub struct Process {
    pub pid: u32,
    pub name: String,
    pub user: String,
    pub cpu: u32,
    pub memory: String,
    pub status: String,
    pub command: String,
}

/// Ghost model of a [`Process`].
#[verifier::ext_equal]
pub ghost struct ProcessModel {
    pub pid: u32,
    pub name: Seq<char>,
    pub user: Seq<char>,
    pub cpu: u32,
    pub memory: Seq<char>,
    pub status: Seq<char>,
    pub command: Seq<char>,
}

impl View for Process {
    type V = ProcessModel;

    open spec fn view(&self) -> ProcessModel {
        ProcessModel {
            pid: self.pid,
            name: self.name@,
            user: self.user@,
            cpu: self.cpu,
            memory: self.memory@,
            status: self.status@,
            command: self.command@,
        }
    }
}

impl DeepView for Process {
    type V = ProcessModel;

    open spec fn deep_view(&self) -> ProcessModel {
        self.view()
    }
}

/// One mounted filesystem.
#[derive(Clone, Debug, PartialEq)]
pub struct FileSystem {
    pub mount: String,
    pub fs_type: String,
    pub status: String,
    pub used: String,
    pub free: String,
    pub usage_percent: u16,
}

/// Ghost model of a [`FileSystem`].
#[verifier::ext_equal]
pub ghost struct FileSystemModel {
    pub mount: Seq<char>,
    pub fs_type: Seq<char>,
    pub status: Seq<char>,
    pub used: Seq<char>,
    pub free: Seq<char>,
    pub usage_percent: u16,
}

impl View for FileSystem {
    type V = FileSystemModel;

    open spec fn view(&self) -> FileSystemModel {
        FileSystemModel {
            mount: self.mount@,
            fs_type: self.fs_type@,
            status: self.status@,
            used: self.used@,
            free: self.free@,
            usage_percent: self.usage_percent,
        }
    }
}

impl DeepView for FileSystem {
    type V = FileSystemModel;

    open spec fn deep_view(&self) -> FileSystemModel {
        self.view()
    }
}

/// One line of the system log.  `timestamp` counts seconds since the epoch.
#[derive(Clone, Debug, PartialEq)]
pub struct LogEntry {
    pub timestamp: u64,
    pub level: String,
    pub source: String,
    pub message: String,
}

/// Ghost model of a [`LogEntry`].
#[verifier::ext_equal]
pub ghost struct LogEntryModel {
    pub timestamp: u64,
    pub level: Seq<char>,
    pub source: Seq<char>,
    pub message: Seq<char>,
}

impl View for LogEntry {
    type V = LogEntryModel;

    open spec fn view(&self) -> LogEntryModel {
        LogEntryModel {
            timestamp: self.timestamp,
            level: self.level@,
            source: self.source@,
            message: self.message@,
        }
    }
}

impl DeepView for LogEntry {
    type V = LogEntryModel;

    open spec fn deep_view(&self) -> LogEntryModel {
        self.view()
    }
}

/// One managed service.
#[derive(Clone, Debug, PartialEq)]
pub struct ServiceStatus {
    pub name: String,
    pub status: String,
    pub uptime: String,
    pub description: String,
}

/// Ghost model of a [`ServiceStatus`].
#[verifier::ext_equal]
pub ghost struct ServiceStatusModel {
    pub name: Seq<char>,
    pub status: Seq<char>,
    pub uptime: Seq<char>,
    pub description: Seq<char>,
}

impl View for ServiceStatus {
    type V = ServiceStatusModel;

    open spec fn view(&self) -> ServiceStatusModel {
        ServiceStatusModel {
            name: self.name@,
            status: self.status@,
            uptime: self.uptime@,
            description: self.description@,
        }
    }
}

impl DeepView for ServiceStatus {
    type V = ServiceStatusModel;

    open spec fn deep_view(&self) -> ServiceStatusModel {
        self.view()
    }
}

/// One network interface.
#[derive(Clone, Debug, PartialEq)]
pub struct NetworkInterface {
    pub name: String,
    pub status: String,
    pub ip: String,
    pub rx_bytes: u64,
    pub tx_bytes: u64,
    pub rx_packets: u64,
    pub tx_packets: u64,
}

/// Ghost model of a [`NetworkInterface`].
#[verifier::ext_equal]
pub ghost struct NetworkInterfaceModel {
    pub name: Seq<char>,
    pub status: Seq<char>,
    pub ip: Seq<char>,
    pub rx_bytes: u64,
    pub tx_bytes: u64,
    pub rx_packets: u64,
    pub tx_packets: u64,
}

impl View for NetworkInterface {
    type V = NetworkInterfaceModel;

    open spec fn view(&self) -> NetworkInterfaceModel {
        NetworkInterfaceModel {
            name: self.name@,
            status: self.status@,
            ip: self.ip@,
            rx_bytes: self.rx_bytes,
            tx_bytes: self.tx_bytes,
            rx_packets: self.rx_packets,
            tx_packets: self.tx_packets,
        }
    }
}

impl DeepView for NetworkInterface {
    type V = NetworkInterfaceModel;

    open spec fn deep_view(&self) -> NetworkInterfaceModel {
        self.view()
    }
}

} // verus!
