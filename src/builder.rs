//! Configuration of a port before it is opened.
use vstd::prelude::*;

verus! {

/// Pipe capacity used when none is given.
pub const DEFAULT_MAX_BUF_SIZE: usize = 1024;

/// Read timeout handed to the driver, in seconds: one hundred years of
/// 365 days, which stands for "block indefinitely".
pub const BLOCKING_TIMEOUT_SECS: u64 = 60 * 60 * 24 * 365 * 100;

/// Builder to open a serial port: device path, baud rate and pipe capacity.
pub struct SerialPortBuilder {
    path: String,
    baud_rate: u32,
    max_buf_size: usize,
}

impl SerialPortBuilder {
    pub closed spec fn spec_path(&self) -> Seq<char> {
        self.path@
    }

    pub closed spec fn spec_baud_rate(&self) -> u32 {
        self.baud_rate
    }

    pub closed spec fn spec_max_buf_size(&self) -> usize {
        self.max_buf_size
    }

    /// Set the capacity of the internal pipe; path and baud rate are kept.
    pub fn max_buf_size(self, max_buf_size: usize) -> (r: Self)
        ensures
            r.spec_max_buf_size() == max_buf_size,
            r.spec_path() == self.spec_path(),
            r.spec_baud_rate() == self.spec_baud_rate(),
    {
        SerialPortBuilder { max_buf_size, ..self }
    }

    /// The device path.
    pub fn path(&self) -> (r: &str)
        ensures
            r@ == self.spec_path(),
    {
        self.path.as_str()
    }

    /// The baud rate.
    pub fn baud_rate(&self) -> (r: u32)
        ensures
            r == self.spec_baud_rate(),
    {
        self.baud_rate
    }

    /// The capacity of the internal pipe.
    pub fn buf_size(&self) -> (r: usize)
        ensures
            r == self.spec_max_buf_size(),
    {
        self.max_buf_size
    }

    /// The read timeout, in seconds, to set on the device before the relay
    /// threads start.
    pub fn read_timeout_secs(&self) -> (r: u64)
        ensures
            r == 100 * 365 * 24 * 60 * 60,
    {
        BLOCKING_TIMEOUT_SECS
    }
}

/// Create a builder from a device path and a baud rate, with the default
/// pipe capacity.
pub fn new(path: &str, baud_rate: u32) -> (r: SerialPortBuilder)
    ensures
        r.spec_path() == path@,
        r.spec_baud_rate() == baud_rate,
        r.spec_max_buf_size() == DEFAULT_MAX_BUF_SIZE,
{
    SerialPortBuilder { path: path.to_string(), baud_rate, max_buf_size: DEFAULT_MAX_BUF_SIZE }
}

} // verus!
