//! The selection model of the interactive menus: which option a numeric
//! choice picks, and how the menu-level bank and action options map to the
//! protocol types.  Printing and input live with the application around the
//! library.

use vstd::prelude::*;

use crate::types::LockAction;
use crate::types::MemoryBank;

verus! {

/// Entries of the interactive main and advanced menus.
#[derive(Debug, Clone, Copy, PartialEq, Eq, Structural)]
pub enum MenuOption {
    /// Scan for tags in range.
    Inventory,
    /// Read tag memory.
    ReadTag,
    /// Write to tag memory.
    WriteTag,
    /// Lock tag memory.
    LockTag,
    /// Set the access password.
    SetPassword,
    /// Switch to the advanced menu.
    AdvancedOptions,
    /// Leave the program.
    Quit,
    /// Show device information.
    ShowDeviceInfo,
    /// Send a manual command.
    ManualCommand,
    /// Trigger a device action (LED or beep).
    DeviceAction,
    /// Run the basic test sequence.
    RunTest,
    /// Return to the main menu.
    BackToMain,
}

impl MenuOption {
    /// Which option a 1-based index selects, on the advanced menu or on the
    /// main menu.
    pub open spec fn spec_from_index(index: usize, is_advanced_menu: bool) -> Option<MenuOption> {
        if is_advanced_menu {
            if index == 1 {
                Some(MenuOption::ShowDeviceInfo)
            } else if index == 2 {
                Some(MenuOption::ManualCommand)
            } else if index == 3 {
                Some(MenuOption::DeviceAction)
            } else if index == 4 {
                Some(MenuOption::RunTest)
            } else if index == 5 {
                Some(MenuOption::BackToMain)
            } else {
                None
            }
        } else {
            if index == 1 {
                Some(MenuOption::Inventory)
            } else if index == 2 {
                Some(MenuOption::ReadTag)
            } else if index == 3 {
                Some(MenuOption::WriteTag)
            } else if index == 4 {
                Some(MenuOption::LockTag)
            } else if index == 5 {
                Some(MenuOption::SetPassword)
            } else if index == 6 {
                Some(MenuOption::AdvancedOptions)
            } else if index == 7 {
                Some(MenuOption::Quit)
            } else {
                None
            }
        }
    }

    /// Resolve a 1-based menu index to its option.
    pub fn from_index(index: usize, is_advanced_menu: bool) -> (r: Option<Self>)
        ensures
            r == Self::spec_from_index(index, is_advanced_menu),
    {
        if is_advanced_menu {
            match index {
                1 => Some(Self::ShowDeviceInfo),
                2 => Some(Self::ManualCommand),
                3 => Some(Self::DeviceAction),
                4 => Some(Self::RunTest),
                5 => Some(Self::BackToMain),
                _ => None,
            }
        } else {
            match index {
                1 => Some(Self::Inventory),
                2 => Some(Self::ReadTag),
                3 => Some(Self::WriteTag),
                4 => Some(Self::LockTag),
                5 => Some(Self::SetPassword),
                6 => Some(Self::AdvancedOptions),
                7 => Some(Self::Quit),
                _ => None,
            }
        }
    }

    /// The label shown for this option.
    pub open spec fn spec_label(self) -> Seq<char> {
        match self {
            MenuOption::Inventory => "Inventory (scan for tags)"@,
            MenuOption::ReadTag => "Read tag memory"@,
            MenuOption::WriteTag => "Write to tag memory"@,
            MenuOption::LockTag => "Lock tag memory"@,
            MenuOption::SetPassword => "Set access password"@,
            MenuOption::AdvancedOptions => "Advanced options"@,
            MenuOption::Quit => "Quit"@,
            MenuOption::ShowDeviceInfo => "Show device information"@,
            MenuOption::ManualCommand => "Send manual command"@,
            MenuOption::DeviceAction => "Device action (LED/beep)"@,
            MenuOption::RunTest => "Run basic test"@,
            MenuOption::BackToMain => "Back to main menu"@,
        }
    }

    /// The label shown for this option.
    pub fn string_value(self) -> (r: &'static str)
        ensures
            r@ == self.spec_label(),
    {
        match self {
            Self::Inventory => "Inventory (scan for tags)",
            Self::ReadTag => "Read tag memory",
            Self::WriteTag => "Write to tag memory",
            Self::LockTag => "Lock tag memory",
            Self::SetPassword => "Set access password",
            Self::AdvancedOptions => "Advanced options",
            Self::Quit => "Quit",
            Self::ShowDeviceInfo => "Show device information",
            Self::ManualCommand => "Send manual command",
            Self::DeviceAction => "Device action (LED/beep)",
            Self::RunTest => "Run basic test",
            Self::BackToMain => "Back to main menu",
        }
    }
}

/// The memory banks as the menu offers them.
#[derive(Debug, Clone, Copy, PartialEq, Eq, Structural)]
pub enum MemoryBankOption {
    /// Reserved memory (passwords).
    Reserved,
    /// EPC memory.
    Epc,
    /// TID memory.
    Tid,
    /// User memory.
    User,
}

impl MemoryBankOption {
    /// Which bank option a 1-based index selects.
    pub open spec fn spec_from_index(index: usize) -> Option<MemoryBankOption> {
        if index == 1 {
            Some(MemoryBankOption::Reserved)
        } else if index == 2 {
            Some(MemoryBankOption::Epc)
        } else if index == 3 {
            Some(MemoryBankOption::Tid)
        } else if index == 4 {
            Some(MemoryBankOption::User)
        } else {
            None
        }
    }

    /// Resolve a 1-based menu index to its bank option.
    pub fn from_index(index: usize) -> (r: Option<Self>)
        ensures
            r == Self::spec_from_index(index),
    {
        match index {
            1 => Some(Self::Reserved),
            2 => Some(Self::Epc),
            3 => Some(Self::Tid),
            4 => Some(Self::User),
            _ => None,
        }
    }

    /// The protocol bank this menu option stands for.
    pub open spec fn spec_to_protocol_bank(self) -> MemoryBank {
        match self {
            MemoryBankOption::Reserved => MemoryBank::Reserved,
            MemoryBankOption::Epc => MemoryBank::Epc,
            MemoryBankOption::Tid => MemoryBank::Tid,
            MemoryBankOption::User => MemoryBank::User,
        }
    }

    /// Map the menu option to the protocol's memory bank.
    pub fn to_protocol_bank(&self) -> (r: MemoryBank)
        ensures
            r == self.spec_to_protocol_bank(),
    {
        match self {
            Self::Reserved => MemoryBank::Reserved,
            Self::Epc => MemoryBank::Epc,
            Self::Tid => MemoryBank::Tid,
            Self::User => MemoryBank::User,
        }
    }
}

/// The lock actions as the menu offers them.
#[derive(Debug, Clone, Copy, PartialEq, Eq, Structural)]
pub enum LockActionOption {
    /// Writeable without protection.
    Writeable,
    /// Permanently writeable.
    PermanentlyWriteable,
    /// Writeable only with the access password.
    SecureWriteable,
    /// Not writeable.
    NotWriteable,
}

impl LockActionOption {
    /// Which lock action a 1-based index selects.
    pub open spec fn spec_from_index(index: usize) -> Option<LockActionOption> {
        if index == 1 {
            Some(LockActionOption::Writeable)
        } else if index == 2 {
            Some(LockActionOption::PermanentlyWriteable)
        } else if index == 3 {
            Some(LockActionOption::SecureWriteable)
        } else if index == 4 {
            Some(LockActionOption::NotWriteable)
        } else {
            None
        }
    }

    /// Resolve a 1-based menu index to its lock action option.
    pub fn from_index(index: usize) -> (r: Option<Self>)
        ensures
            r == Self::spec_from_index(index),
    {
        match index {
            1 => Some(Self::Writeable),
            2 => Some(Self::PermanentlyWriteable),
            3 => Some(Self::SecureWriteable),
            4 => Some(Self::NotWriteable),
            _ => None,
        }
    }

    /// The protocol lock action this menu option stands for.
    pub open spec fn spec_to_protocol_action(self) -> LockAction {
        match self {
            LockActionOption::Writeable => LockAction::Writeable,
            LockActionOption::PermanentlyWriteable => LockAction::PermanentlyWriteable,
            LockActionOption::SecureWriteable => LockAction::SecureWriteable,
            LockActionOption::NotWriteable => LockAction::NotWriteable,
        }
    }

    /// Map the menu option to the protocol's lock action.
    pub fn to_protocol_action(&self) -> (r: LockAction)
        ensures
            r == self.spec_to_protocol_action(),
    {
        match self {
            Self::Writeable => LockAction::Writeable,
            Self::PermanentlyWriteable => LockAction::PermanentlyWriteable,
            Self::SecureWriteable => LockAction::SecureWriteable,
            Self::NotWriteable => LockAction::NotWriteable,
        }
    }
}

/// State of the interactive menu: whether the advanced menu is showing.
pub struct Menu {
    /// Whether the advanced menu is active.
    pub in_advanced_menu: bool,
}

impl Menu {
    /// A fresh menu, showing the main entries.
    pub fn new() -> (r: Self)
        ensures
            !r.in_advanced_menu,
    {
        Self { in_advanced_menu: false }
    }
}

} // verus!
