//! Containers as the list endpoint describes them, their ports, and the
//! records of a container's log.

use vstd::prelude::*;

verus! {

/// A container as the list endpoint describes it.
#[allow(non_snake_case)]
pub struct Container {
    pub Id: String,
    pub Image: String,
    pub Status: String,
    pub Command: String,
    pub Created: i64,
    pub Names: Vec<String>,
    pub Ports: Vec<Port>,
}

/// A port of a container, and the public port it is mapped to.
#[allow(non_snake_case)]
pub struct Port {
    pub IP: Option<String>,
    pub PrivatePort: i64,
    pub PublicPort: i64,
    pub Type: String,
}

/// A port as a mathematical value.
#[allow(non_snake_case)]
pub struct PortView {
    pub IP: Option<Seq<char>>,
    pub PrivatePort: i64,
    pub PublicPort: i64,
    pub Type: Seq<char>,
}

impl View for Port {
    type V = PortView;

    open spec fn view(&self) -> PortView {
        PortView {
            IP: match self.IP {
                Some(ip) => Some(ip@),
                None => None,
            },
            PrivatePort: self.PrivatePort,
            PublicPort: self.PublicPort,
            Type: self.Type@,
        }
    }
}

impl Clone for Port {
    /// A port with the same address, numbers and protocol.
    fn clone(&self) -> (port: Port)
        ensures
            port@ == self@,
    {
        let ip = match &self.IP {
            Some(ip) => Some(ip.clone()),
            None => None,
        };
        let port = Port {
            IP: ip,
            PrivatePort: self.PrivatePort,
            PublicPort: self.PublicPort,
            Type: self.Type.clone(),
        };
        return port;
    }
}

/// One of the three streams that a container's log multiplexes.
#[derive(Debug, Clone, Copy, PartialEq, Eq, Structural)]
pub enum StreamKind {
    StdIn,
    StdOut,
    StdErr,
}

/// One record of a container's log: the stream it was written to and its
/// text, which may be empty.
#[derive(Debug, Clone, PartialEq, Eq)]
pub enum LogOutput {
    StdErr { message: String },
    StdIn { message: String },
    StdOut { message: String },
}

/// A log record as a mathematical value.
pub struct LogRecord {
    pub stream: StreamKind,
    pub message: Seq<char>,
}

impl View for LogOutput {
    type V = LogRecord;

    open spec fn view(&self) -> LogRecord {
        match *self {
            LogOutput::StdErr { message } => LogRecord {
                stream: StreamKind::StdErr,
                message: message@,
            },
            LogOutput::StdIn { message } => LogRecord {
                stream: StreamKind::StdIn,
                message: message@,
            },
            LogOutput::StdOut { message } => LogRecord {
                stream: StreamKind::StdOut,
                message: message@,
            },
        }
    }
}

impl LogOutput {
    /// The record with the given stream and text.
    pub fn new(stream: StreamKind, message: String) -> (record: LogOutput)
        ensures
            record@ == (LogRecord { stream, message: message@ }),
    {
        match stream {
            StreamKind::StdIn => LogOutput::StdIn { message },
            StreamKind::StdOut => LogOutput::StdOut { message },
            StreamKind::StdErr => LogOutput::StdErr { message },
        }
    }
}

} // verus!
