//! Shared types: window addresses, workspace names, socket commands and
//! modifier keys.
use vstd::prelude::*;
use crate::error::HyprError;
use crate::text::{chars_of, push_str, push_chars, i128_text, int_dec, starts_with_str};

verus! {

/// This type provides the id used to identify workspaces.
pub type WorkspaceId = i32;

/// This type provides the id used to identify monitors.
pub type MonitorId = i128;

/// The address text that `Address::new` makes of `s`: `s` itself when it
/// already starts with `0x`, else `s` behind `0x`.
pub open spec fn address_text(s: Seq<char>) -> Seq<char> {
    if s.len() >= 2 && s.take(2) == "0x"@ {
        s
    } else {
        "0x"@ + s
    }
}

/// A window address, held as its text (`0x...`).
#[derive(Debug, Clone, PartialEq, Eq, Hash, PartialOrd, Ord)]
pub struct Address(pub String);

impl View for Address {
    type V = Seq<char>;

    open spec fn view(&self) -> Seq<char> {
        self.0@
    }
}

impl Address {
    /// An address with `0x` put in front of the given text.
    pub fn fmt_new(address: &str) -> (res: Address)
        ensures
            res@ == "0x"@ + address@,
    {
        let mut s = String::from_str("0x");
        push_str(&mut s, address);
        Address(s)
    }

    /// An address from its text, with `0x` added unless it is there.
    pub fn new(string: &str) -> (res: Address)
        ensures
            res@ == address_text(string@),
    {
        let v = chars_of(string);
        proof {
            reveal_strlit("0x");
        }
        if starts_with_str(&v, "0x") {
            Address(String::from_str(string))
        } else {
            Self::fmt_new(string)
        }
    }

    /// The address text, as its `Display` writes it.
    pub fn to_string(&self) -> (res: String)
        ensures
            res@ == self@,
    {
        self.0.clone()
    }
}

/// `Address::new` leaves an address that it made unchanged: applied to the
/// text of an address it returns that address again.
pub proof fn law_address_new_idempotent(s: Seq<char>)
    ensures
        address_text(address_text(s)) == address_text(s),
{
    reveal_strlit("0x");
    if !(s.len() >= 2 && s.take(2) == "0x"@) {
        assert(("0x"@ + s).take(2) =~= "0x"@);
    }
}

/// The model of a workspace name.
pub enum WorkspaceTypeView {
    /// A named workspace.
    Regular(Seq<char>),
    /// The special workspace, with its name if it has one.
    Special(Option<Seq<char>>),
}

/// This enum holds workspace data.
#[derive(Debug, Clone, PartialEq, Eq, PartialOrd, Ord, Hash)]
pub enum WorkspaceType {
    /// A named workspace
    Regular(
        /// The name
        String,
    ),
    /// The special workspace
    Special(
        /// The name, if exists
        Option<String>,
    ),
}

impl View for WorkspaceType {
    type V = WorkspaceTypeView;

    open spec fn view(&self) -> WorkspaceTypeView {
        match self {
            WorkspaceType::Regular(n) => WorkspaceTypeView::Regular(n@),
            WorkspaceType::Special(None) => WorkspaceTypeView::Special(None),
            WorkspaceType::Special(Some(n)) => WorkspaceTypeView::Special(Some(n@)),
        }
    }
}

/// How a workspace is written: its name, or `special` with `:name` when
/// the special workspace has a name.
pub open spec fn workspace_text(w: WorkspaceTypeView) -> Seq<char> {
    match w {
        WorkspaceTypeView::Regular(n) => n,
        WorkspaceTypeView::Special(None) => "special"@,
        WorkspaceTypeView::Special(Some(n)) => "special:"@ + n,
    }
}

/// The model of the result of converting an integer id to a workspace.
pub open spec fn workspace_of_id(id: int) -> Option<WorkspaceTypeView> {
    if id >= 1 {
        Some(WorkspaceTypeView::Regular(int_dec(id)))
    } else {
        None
    }
}

/// Whether `res` is what converting the integer id `id` to a workspace
/// gives: the regular workspace named by the id's decimal text for ids
/// from 1 up, the `Unrecognised id` error otherwise.
pub open spec fn converts_id(id: int, res: Result<WorkspaceType, HyprError>) -> bool {
    match workspace_of_id(id) {
        Some(w) => res matches Ok(r) && r@ == w,
        None => res matches Err(e) && e.internal_text() == Some("Conversion error: Unrecognised id"@),
    }
}

impl WorkspaceType {
    /// The workspace as its `Display` writes it.
    pub fn to_string(&self) -> (res: String)
        ensures
            res@ == workspace_text(self@),
    {
        match self {
            WorkspaceType::Regular(n) => n.clone(),
            WorkspaceType::Special(None) => String::from_str("special"),
            WorkspaceType::Special(Some(n)) => {
                let mut s = String::from_str("special:");
                push_str(&mut s, n.as_str());
                s
            },
        }
    }

    /// A workspace from an integer id: ids from 1 up name a regular
    /// workspace by their decimal text; other ids are refused.
    pub fn try_from_id(id: i128) -> (res: Result<WorkspaceType, HyprError>)
        ensures
            match workspace_of_id(id as int) {
                Some(w) => res matches Ok(r) && r@ == w,
                None => res matches Err(e) && e.internal_text() == Some("Conversion error: Unrecognised id"@),
            },
    {
        if id >= 1 {
            Ok(WorkspaceType::Regular(i128_text(id)))
        } else {
            Err(HyprError::Internal(String::from_str("Conversion error: Unrecognised id")))
        }
    }
}

impl TryFrom<u8> for WorkspaceType {
    type Error = HyprError;

    fn try_from(id: u8) -> (res: Result<WorkspaceType, HyprError>)
        ensures
            converts_id(id as int, res),
    {
        WorkspaceType::try_from_id(id as i128)
    }
}

impl vstd::std_specs::convert::TryFromSpecImpl<u8> for WorkspaceType {
    open spec fn obeys_try_from_spec() -> bool {
        false
    }

    open spec fn try_from_spec(id: u8) -> Result<WorkspaceType, HyprError> {
        vstd::pervasive::arbitrary()
    }
}

impl TryFrom<u16> for WorkspaceType {
    type Error = HyprError;

    fn try_from(id: u16) -> (res: Result<WorkspaceType, HyprError>)
        ensures
            converts_id(id as int, res),
    {
        WorkspaceType::try_from_id(id as i128)
    }
}

impl vstd::std_specs::convert::TryFromSpecImpl<u16> for WorkspaceType {
    open spec fn obeys_try_from_spec() -> bool {
        false
    }

    open spec fn try_from_spec(id: u16) -> Result<WorkspaceType, HyprError> {
        vstd::pervasive::arbitrary()
    }
}

impl TryFrom<u32> for WorkspaceType {
    type Error = HyprError;

    fn try_from(id: u32) -> (res: Result<WorkspaceType, HyprError>)
        ensures
            converts_id(id as int, res),
    {
        WorkspaceType::try_from_id(id as i128)
    }
}

impl vstd::std_specs::convert::TryFromSpecImpl<u32> for WorkspaceType {
    open spec fn obeys_try_from_spec() -> bool {
        false
    }

    open spec fn try_from_spec(id: u32) -> Result<WorkspaceType, HyprError> {
        vstd::pervasive::arbitrary()
    }
}

impl TryFrom<u64> for WorkspaceType {
    type Error = HyprError;

    fn try_from(id: u64) -> (res: Result<WorkspaceType, HyprError>)
        ensures
            converts_id(id as int, res),
    {
        WorkspaceType::try_from_id(id as i128)
    }
}

impl vstd::std_specs::convert::TryFromSpecImpl<u64> for WorkspaceType {
    open spec fn obeys_try_from_spec() -> bool {
        false
    }

    open spec fn try_from_spec(id: u64) -> Result<WorkspaceType, HyprError> {
        vstd::pervasive::arbitrary()
    }
}

impl TryFrom<usize> for WorkspaceType {
    type Error = HyprError;

    fn try_from(id: usize) -> (res: Result<WorkspaceType, HyprError>)
        ensures
            converts_id(id as int, res),
    {
        WorkspaceType::try_from_id(id as i128)
    }
}

impl vstd::std_specs::convert::TryFromSpecImpl<usize> for WorkspaceType {
    open spec fn obeys_try_from_spec() -> bool {
        false
    }

    open spec fn try_from_spec(id: usize) -> Result<WorkspaceType, HyprError> {
        vstd::pervasive::arbitrary()
    }
}

impl TryFrom<i8> for WorkspaceType {
    type Error = HyprError;

    fn try_from(id: i8) -> (res: Result<WorkspaceType, HyprError>)
        ensures
            converts_id(id as int, res),
    {
        WorkspaceType::try_from_id(id as i128)
    }
}

impl vstd::std_specs::convert::TryFromSpecImpl<i8> for WorkspaceType {
    open spec fn obeys_try_from_spec() -> bool {
        false
    }

    open spec fn try_from_spec(id: i8) -> Result<WorkspaceType, HyprError> {
        vstd::pervasive::arbitrary()
    }
}

impl TryFrom<i16> for WorkspaceType {
    type Error = HyprError;

    fn try_from(id: i16) -> (res: Result<WorkspaceType, HyprError>)
        ensures
            converts_id(id as int, res),
    {
        WorkspaceType::try_from_id(id as i128)
    }
}

impl vstd::std_specs::convert::TryFromSpecImpl<i16> for WorkspaceType {
    open spec fn obeys_try_from_spec() -> bool {
        false
    }

    open spec fn try_from_spec(id: i16) -> Result<WorkspaceType, HyprError> {
        vstd::pervasive::arbitrary()
    }
}

impl TryFrom<i32> for WorkspaceType {
    type Error = HyprError;

    fn try_from(id: i32) -> (res: Result<WorkspaceType, HyprError>)
        ensures
            converts_id(id as int, res),
    {
        WorkspaceType::try_from_id(id as i128)
    }
}

impl vstd::std_specs::convert::TryFromSpecImpl<i32> for WorkspaceType {
    open spec fn obeys_try_from_spec() -> bool {
        false
    }

    open spec fn try_from_spec(id: i32) -> Result<WorkspaceType, HyprError> {
        vstd::pervasive::arbitrary()
    }
}

impl TryFrom<i64> for WorkspaceType {
    type Error = HyprError;

    fn try_from(id: i64) -> (res: Result<WorkspaceType, HyprError>)
        ensures
            converts_id(id as int, res),
    {
        WorkspaceType::try_from_id(id as i128)
    }
}

impl vstd::std_specs::convert::TryFromSpecImpl<i64> for WorkspaceType {
    open spec fn obeys_try_from_spec() -> bool {
        false
    }

    open spec fn try_from_spec(id: i64) -> Result<WorkspaceType, HyprError> {
        vstd::pervasive::arbitrary()
    }
}

impl TryFrom<isize> for WorkspaceType {
    type Error = HyprError;

    fn try_from(id: isize) -> (res: Result<WorkspaceType, HyprError>)
        ensures
            converts_id(id as int, res),
    {
        WorkspaceType::try_from_id(id as i128)
    }
}

impl vstd::std_specs::convert::TryFromSpecImpl<isize> for WorkspaceType {
    open spec fn obeys_try_from_spec() -> bool {
        false
    }

    open spec fn try_from_spec(id: isize) -> Result<WorkspaceType, HyprError> {
        vstd::pervasive::arbitrary()
    }
}

/// This enum defines the possible command flags that can be used.
#[derive(Debug, Default, Clone, Copy, PartialEq, Eq)]
pub enum CommandFlag {
    /// The JSON flag.
    #[default]
    JSON,
    /// An empty flag.
    Empty,
}

/// This struct defines the content of a command, which consists of a flag
/// and a data string.
#[derive(Debug, Clone, PartialEq, Eq)]
pub struct CommandContent {
    /// The flag for the command.
    pub flag: CommandFlag,
    /// The data string for the command.
    pub data: String,
}

/// How a command is written to the socket: `j/` or `/` before its data.
pub open spec fn command_text(flag: CommandFlag, data: Seq<char>) -> Seq<char> {
    match flag {
        CommandFlag::JSON => "j/"@ + data,
        CommandFlag::Empty => "/"@ + data,
    }
}

impl CommandContent {
    /// The command as its `Display` writes it.
    pub fn to_string(&self) -> (res: String)
        ensures
            res@ == command_text(self.flag, self.data@),
    {
        let mut s = match self.flag {
            CommandFlag::JSON => String::from_str("j/"),
            CommandFlag::Empty => String::from_str("/"),
        };
        push_str(&mut s, self.data.as_str());
        s
    }

    /// Converts the command content to a byte vector: the UTF-8 encoding
    /// of its text.
    pub fn as_bytes(&self) -> (res: Vec<u8>)
        ensures
            res@ == vstd::utf8::encode_utf8(command_text(self.flag, self.data@)),
    {
        let s = self.to_string();
        s.as_str().as_bytes_vec()
    }
}

/// Enum for mod keys used in bind combinations
#[derive(Debug, Clone, Copy, PartialEq, Eq)]
pub enum Mod {
    #[allow(missing_docs)]
    SUPER,
    #[allow(missing_docs)]
    SHIFT,
    #[allow(missing_docs)]
    ALT,
    #[allow(missing_docs)]
    CTRL,
    #[allow(missing_docs)]
    NONE,
}

/// How a mod key is written.
pub open spec fn mod_text(m: Mod) -> Seq<char> {
    match m {
        Mod::SUPER => "SUPER"@,
        Mod::SHIFT => "SHIFT"@,
        Mod::ALT => "ALT"@,
        Mod::CTRL => "CTRL"@,
        Mod::NONE => ""@,
    }
}

impl Mod {
    /// The mod key as its `Display` writes it.
    pub fn to_string(&self) -> (res: String)
        ensures
            res@ == mod_text(*self),
    {
        match self {
            Mod::SUPER => String::from_str("SUPER"),
            Mod::SHIFT => String::from_str("SHIFT"),
            Mod::ALT => String::from_str("ALT"),
            Mod::CTRL => String::from_str("CTRL"),
            Mod::NONE => String::from_str(""),
        }
    }
}

} // verus!
