//! Core protocol types: memory banks, device actions, inventory records,
//! error taxonomy and the USB I/O capability trait.

use vstd::prelude::*;

verus! {

/// Memory locking actions for ordinary memory banks.
#[derive(Debug, Clone, Copy, PartialEq, Eq, Structural)]
pub enum LockAction {
    /// Memory bank is writeable without a password.
    Writeable,
    /// Memory bank is permanently writeable and can never be locked.
    PermanentlyWriteable,
    /// Memory bank is writeable only with the correct access password.
    SecureWriteable,
    /// Memory bank is not writeable (locked).
    NotWriteable,
}

/// Locking actions for the password banks.
#[derive(Debug, Clone, Copy, PartialEq, Eq, Structural)]
pub enum PasswordLockAction {
    /// Password is readable and writeable without a password.
    ReadWriteable,
    /// Password is permanently readable and writeable and can never be locked.
    PermanentlyReadWriteable,
    /// Password is readable and writeable only with the correct access password.
    SecureReadWriteable,
    /// Password is not readable or writeable (locked).
    NotReadWriteable,
}

/// Memory bank selection for locking operations.
#[derive(Debug, Clone, Copy, PartialEq, Eq, Structural)]
pub enum LockableMemoryBank {
    /// User memory bank.
    User,
    /// TID memory bank.
    Tid,
    /// EPC memory bank.
    Epc,
    /// Access password.
    AccessPassword,
    /// Kill password.
    KillPassword,
}

/// Memory banks addressable by the read and write operations.
#[derive(Debug, Clone, Copy, PartialEq, Eq, Hash, Structural)]
pub enum MemoryBank {
    /// EPC memory bank.
    Epc,
    /// TID memory bank.
    Tid,
    /// User memory bank.
    User,
    /// Reserved memory bank.
    Reserved,
}

impl MemoryBank {
    /// Numeric protocol code of the bank (1 to 4).
    pub open spec fn spec_code(self) -> u8 {
        match self {
            MemoryBank::Epc => 1,
            MemoryBank::Tid => 2,
            MemoryBank::User => 3,
            MemoryBank::Reserved => 4,
        }
    }

    /// Numeric protocol code of the bank, used both as array index and wire byte.
    pub fn code(self) -> (r: u8)
        ensures
            r == self.spec_code(),
    {
        match self {
            MemoryBank::Epc => 1,
            MemoryBank::Tid => 2,
            MemoryBank::User => 3,
            MemoryBank::Reserved => 4,
        }
    }

    /// The bank's wire byte: its code rendered as an ASCII digit.
    pub open spec fn spec_to_ascii(self) -> u8 {
        (self.spec_code() + 48) as u8
    }

    /// Convert the memory bank value to its ASCII digit representation.
    pub fn to_ascii(&self) -> (r: u8)
        ensures
            r == self.spec_to_ascii(),
    {
        self.code() + 48
    }

    /// Human-readable name of the bank.
    pub open spec fn spec_name(self) -> Seq<char> {
        match self {
            MemoryBank::Epc => "EPC"@,
            MemoryBank::Tid => "TID"@,
            MemoryBank::User => "User"@,
            MemoryBank::Reserved => "Reserved"@,
        }
    }

    /// Human-readable name of the bank.
    pub fn name(&self) -> (r: &'static str)
        ensures
            r@ == self.spec_name(),
    {
        match self {
            MemoryBank::Epc => "EPC",
            MemoryBank::Tid => "TID",
            MemoryBank::User => "User",
            MemoryBank::Reserved => "Reserved",
        }
    }
}

impl From<u8> for MemoryBank {
    /// Code 1 is EPC, 2 is TID, 3 is User; every other value maps to Reserved.
    fn from(value: u8) -> Self {
        match value {
            1 => MemoryBank::Epc,
            2 => MemoryBank::Tid,
            3 => MemoryBank::User,
            _ => MemoryBank::Reserved,
        }
    }
}

impl vstd::std_specs::convert::FromSpecImpl<u8> for MemoryBank {
    open spec fn obeys_from_spec() -> bool {
        true
    }

    open spec fn from_spec(value: u8) -> Self {
        if value == 1 {
            MemoryBank::Epc
        } else if value == 2 {
            MemoryBank::Tid
        } else if value == 3 {
            MemoryBank::User
        } else {
            MemoryBank::Reserved
        }
    }
}

/// Device indicator actions, combinable by OR into a single bitmask.
#[derive(Debug, Clone, Copy, PartialEq, Eq, Structural)]
pub enum DeviceAction {
    /// Trigger buzzer.
    Beep,
    /// Turn on red LED.
    RedLed,
    /// Turn on green LED.
    GreenLed,
    /// Turn on yellow LED.
    YellowLed,
}

impl DeviceAction {
    /// The single bit this action occupies in the command bitmask.
    pub open spec fn spec_bits(self) -> u8 {
        match self {
            DeviceAction::Beep => 0x01,
            DeviceAction::RedLed => 0x02,
            DeviceAction::GreenLed => 0x04,
            DeviceAction::YellowLed => 0x08,
        }
    }

    /// The single bit this action occupies in the command bitmask.
    pub fn bits(self) -> (r: u8)
        ensures
            r == self.spec_bits(),
    {
        match self {
            DeviceAction::Beep => 0x01,
            DeviceAction::RedLed => 0x02,
            DeviceAction::GreenLed => 0x04,
            DeviceAction::YellowLed => 0x08,
        }
    }

    /// Bitmask obtained by OR-ing the bits of every action in the sequence.
    pub open spec fn spec_combine(actions: Seq<DeviceAction>) -> u8
        decreases actions.len(),
    {
        if actions.len() == 0 {
            0
        } else {
            Self::spec_combine(actions.drop_last()) | actions.last().spec_bits()
        }
    }

    /// Combine multiple device actions into a single bitmask.
    pub fn combine(actions: &[DeviceAction]) -> (r: u8)
        ensures
            r == Self::spec_combine(actions@),
    {
        let mut acc: u8 = 0;
        let mut i: usize = 0;
        while i < actions.len()
            invariant
                i <= actions@.len(),
                acc == Self::spec_combine(actions@.take(i as int)),
            decreases actions@.len() - i,
        {
            let a = actions[i];
            acc = acc | a.bits();
            proof {
                assert(actions@.take(i + 1 as int).drop_last() =~= actions@.take(i as int));
            }
            i = i + 1;
        }
        proof {
            assert(actions@.take(actions@.len() as int) =~= actions@);
        }
        acc
    }

    /// A combined bitmask never exceeds 15: each action's bit lies in the low
    /// four bits of the byte.
    pub proof fn lemma_combine_bounded(actions: Seq<DeviceAction>)
        ensures
            Self::spec_combine(actions) <= 15,
        decreases actions.len(),
    {
        if actions.len() == 0 {
        } else {
            Self::lemma_combine_bounded(actions.drop_last());
            let x = Self::spec_combine(actions.drop_last());
            let y = actions.last().spec_bits();
            assert(x <= 15 && y <= 15 ==> (x | y) <= 15) by (bit_vector);
        }
    }
}

/// One tag found by an inventory scan, with the scan's read count.
pub struct InventoryResult {
    /// Electronic Product Code of the tag, as a hex string.
    pub epc: String,
    /// Number of times the tag was read.
    pub read_count: u8,
}

/// Error taxonomy of the protocol engine (backend-agnostic).
#[derive(Debug)]
pub enum UhfError {
    /// RFID device could not be found.
    DeviceNotFound,
    /// Invalid or stale device handle.
    InvalidHandle,
    /// Input parameter failed validation.
    InvalidParameter(String),
    /// Communication layer error (e.g. USB I/O).
    Communication(String),
    /// Timed out waiting for a device response.
    Timeout,
    /// Device returned an invalid or unexpected response.
    InvalidResponse,
}

/// Minimal USB I/O capability that decouples the protocol engine from a
/// concrete transport backend.  Implementations live outside the verified
/// library; the engine states only what it needs of every outcome.
pub trait UsbIo {
    /// Whether a device is attached and usable.
    spec fn connected(&self) -> bool;

    /// Reports whether a device is attached and usable.
    fn is_connected(&self) -> (r: bool)
        ensures
            r == self.connected(),
    ;

    /// Read one transfer into `buf`, returning how many bytes were read.
    /// The buffer keeps its length; the device decides its contents.
    fn read_bulk(&self, endpoint: u8, buf: &mut Vec<u8>, timeout_ms: u64) -> (r: Result<
        usize,
        UhfError,
    >)
        ensures
            final(buf)@.len() == old(buf)@.len(),
            r matches Ok(n) ==> n <= final(buf)@.len(),
    ;

    /// Write `data` to the device, returning how many bytes were accepted.
    fn write_bulk(&self, endpoint: u8, data: &[u8], timeout_ms: u64) -> (r: Result<
        usize,
        UhfError,
    >);
}

} // verus!
