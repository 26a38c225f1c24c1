//! A device whose attribute files are read on demand.
//!
//! The device does not read files itself. An accessor answers with the value
//! when it is known already, and else names the attribute file that has to
//! be read first; the caller reads that file and hands its text to
//! [`Driver::supply`]. A value that has been understood once is kept and
//! never read again.

use crate::base::{Block, HardBlockReasons, Kind};
use crate::driver::seal::{PartiallyReadRepr, StateSeal};
use crate::driver::{BlockStatus, Driver, Full, State};
use crate::text::{flag_of, parse_flag, ParseKindError, ParseReasonsError};
use std::path::PathBuf;
use vstd::prelude::*;

verus! {

/// Shape of a device whose attributes are read on demand and kept.
#[derive(Debug, Clone, Copy, PartialEq, Eq, Hash)]
pub struct Partial;

impl State for Partial {

}

impl StateSeal for Partial {
    type Repr = PartiallyReadRepr;
}

/// One attribute file of a device.
#[derive(Debug, Clone, Copy, PartialEq, Eq, Hash, Structural)]
pub enum Attribute {
    Name,
    Kind,
    Persistent,
    SoftBlocked,
    HardBlocked,
    HardBlockReasons,
}

impl Attribute {
    /// Name of the attribute's file in the directory of the device.
    pub open spec fn spec_file_name(self) -> Seq<char> {
        match self {
            Attribute::Name => "name"@,
            Attribute::Kind => "type"@,
            Attribute::Persistent => "persistent"@,
            Attribute::SoftBlocked => "soft"@,
            Attribute::HardBlocked => "hard"@,
            Attribute::HardBlockReasons => "hard_block_reasons"@,
        }
    }

    /// Name of the attribute's file in the directory of the device.
    pub fn file_name(&self) -> (name: &'static str)
        ensures
            name@ == self.spec_file_name(),
    {
        match self {
            Attribute::Name => "name",
            Attribute::Kind => "type",
            Attribute::Persistent => "persistent",
            Attribute::SoftBlocked => "soft",
            Attribute::HardBlocked => "hard",
            Attribute::HardBlockReasons => "hard_block_reasons",
        }
    }
}

/// Why the text of an attribute file was not understood.
#[derive(Debug, Clone, PartialEq, Eq)]
pub enum Error {
    /// The text of `type` is not the name of a kind.
    Parse(ParseKindError),
    /// The text of `hard_block_reasons` is not a hexadecimal number of eight
    /// bits.
    ParseInt(ParseReasonsError),
    /// The text of a flag is neither `0` nor `1`.
    InvalidNumericValueForBool { value: String },
}

/// A value that the text of an attribute file spells out.
pub trait FromText: Sized + Copy {
    /// The value that a text stands for, or the error of a text that stands
    /// for none.
    spec fn spec_read(text: Seq<char>) -> Result<Self, Error>;

    /// Reads the value that a text stands for.
    fn read(text: &str) -> (value: Result<Self, Error>)
        ensures
            value == Self::spec_read(text@),
    ;
}

impl FromText for Kind {
    open spec fn spec_read(text: Seq<char>) -> Result<Kind, Error> {
        match Kind::spec_from_text(text) {
            Ok(kind) => Ok(kind),
            Err(error) => Err(Error::Parse(error)),
        }
    }

    fn read(text: &str) -> (value: Result<Kind, Error>) {
        match Kind::from_text(text) {
            Ok(kind) => Ok(kind),
            Err(error) => Err(Error::Parse(error)),
        }
    }
}

impl FromText for HardBlockReasons {
    open spec fn spec_read(text: Seq<char>) -> Result<HardBlockReasons, Error> {
        match HardBlockReasons::spec_from_text(text) {
            Ok(reasons) => Ok(reasons),
            Err(error) => Err(Error::ParseInt(error)),
        }
    }

    fn read(text: &str) -> (value: Result<HardBlockReasons, Error>) {
        match HardBlockReasons::from_text(text) {
            Ok(reasons) => Ok(reasons),
            Err(error) => Err(Error::ParseInt(error)),
        }
    }
}

/// The answer of an accessor: the value, or the attribute file that has to
/// be read before the value can be given.
#[derive(Debug, Clone, Copy, PartialEq, Eq)]
pub enum Access<T> {
    Cached(T),
    Read(Attribute),
}

/// What a device knows of its attributes: each one, once it has been read.
pub struct Attributes {
    pub name: Option<Seq<char>>,
    pub kind: Option<Kind>,
    pub persistent: Option<bool>,
    pub soft_blocked: Option<bool>,
    pub hard_blocked: Option<bool>,
    pub hard_block_reasons: Option<HardBlockReasons>,
}

impl Attributes {
    /// Nothing read yet.
    pub open spec fn empty() -> Attributes {
        Attributes {
            name: None,
            kind: None,
            persistent: None,
            soft_blocked: None,
            hard_blocked: None,
            hard_block_reasons: None,
        }
    }

    /// Whether the attribute has been read.
    pub open spec fn holds(self, attribute: Attribute) -> bool {
        match attribute {
            Attribute::Name => self.name is Some,
            Attribute::Kind => self.kind is Some,
            Attribute::Persistent => self.persistent is Some,
            Attribute::SoftBlocked => self.soft_blocked is Some,
            Attribute::HardBlocked => self.hard_blocked is Some,
            Attribute::HardBlockReasons => self.hard_block_reasons is Some,
        }
    }

    /// The attributes once the text of one more file has been understood;
    /// `None` when the text is not what that file may hold.
    pub open spec fn understood(self, attribute: Attribute, text: Seq<char>) -> Option<Attributes> {
        match attribute {
            Attribute::Name => Some(Attributes { name: Some(text), ..self }),
            Attribute::Kind => match Kind::spec_from_text(text) {
                Ok(kind) => Some(Attributes { kind: Some(kind), ..self }),
                Err(_) => None,
            },
            Attribute::Persistent => match flag_of(text) {
                Some(flag) => Some(Attributes { persistent: Some(flag), ..self }),
                None => None,
            },
            Attribute::SoftBlocked => match flag_of(text) {
                Some(flag) => Some(Attributes { soft_blocked: Some(flag), ..self }),
                None => None,
            },
            Attribute::HardBlocked => match flag_of(text) {
                Some(flag) => Some(Attributes { hard_blocked: Some(flag), ..self }),
                None => None,
            },
            Attribute::HardBlockReasons => match HardBlockReasons::spec_from_text(text) {
                Ok(reasons) => Some(Attributes { hard_block_reasons: Some(reasons), ..self }),
                Err(_) => None,
            },
        }
    }

    /// The reasons of the hard block. They are asked for only of a device
    /// that is known to be hard-blocked.
    pub open spec fn checked_reasons(self) -> Access<Option<HardBlockReasons>> {
        match self.hard_blocked {
            None => Access::Read(Attribute::HardBlocked),
            Some(false) => Access::Cached(None),
            Some(true) => match self.hard_block_reasons {
                Some(reasons) => Access::Cached(Some(reasons)),
                None => Access::Read(Attribute::HardBlockReasons),
            },
        }
    }

    /// The block status: the soft flag first, then the hard block.
    pub open spec fn block_status(self) -> Access<BlockStatus> {
        match self.soft_blocked {
            None => Access::Read(Attribute::SoftBlocked),
            Some(soft) => match self.checked_reasons() {
                Access::Read(attribute) => Access::Read(attribute),
                Access::Cached(hard) => Access::Cached(
                    BlockStatus::spec_from_block(Block { soft, hard }),
                ),
            },
        }
    }

    /// The first attribute that a fully read device still lacks, in the
    /// order name, kind, persistent flag, block status.
    pub open spec fn missing(self) -> Option<Attribute> {
        if self.name is None {
            Some(Attribute::Name)
        } else if self.kind is None {
            Some(Attribute::Kind)
        } else if self.persistent is None {
            Some(Attribute::Persistent)
        } else {
            match self.block_status() {
                Access::Read(attribute) => Some(attribute),
                Access::Cached(_) => None,
            }
        }
    }
}

impl Attributes {
    /// A text that is understood fills its attribute and leaves the others
    /// alone, so that the attribute is not the missing one again.
    pub proof fn lemma_understood_fills(self, attribute: Attribute, text: Seq<char>)
        requires
            self.understood(attribute, text) is Some,
        ensures
            self.understood(attribute, text).unwrap().holds(attribute),
            forall|other: Attribute|
                other != attribute ==> self.understood(attribute, text).unwrap().holds(other)
                    == self.holds(other),
            self.understood(attribute, text).unwrap().missing() != Some(attribute),
    {
    }

    /// The attribute that is reported missing has not been read, and none is
    /// missing once the name, the kind, the persistent flag, the soft flag,
    /// the hard flag and, behind a hard flag that is set, the reasons have
    /// been read.
    pub proof fn lemma_missing(self)
        ensures
            self.missing() matches Some(attribute) ==> !self.holds(attribute),
            self.missing() is None <==> self.name is Some && self.kind is Some && self.persistent
                is Some && self.soft_blocked is Some && self.hard_blocked is Some && (
            self.hard_blocked == Some(true) ==> self.hard_block_reasons is Some),
    {
    }
}

/// Whether `error` is the error for a text that the file of `attribute` may
/// not hold.
pub open spec fn rejects(attribute: Attribute, text: Seq<char>, error: Error) -> bool {
    match attribute {
        Attribute::Name => false,
        Attribute::Kind => error == Error::Parse(ParseKindError),
        Attribute::HardBlockReasons => error == Error::ParseInt(ParseReasonsError),
        _ => error matches Error::InvalidNumericValueForBool { value } && value@ == text,
    }
}

impl View for Driver<Partial> {
    type V = Attributes;

    closed spec fn view(&self) -> Attributes {
        Attributes {
            name: match self.0.name {
                Some(name) => Some(name@),
                None => None,
            },
            kind: self.0.kind,
            persistent: self.0.persistent,
            soft_blocked: self.0.soft_blocked,
            hard_blocked: self.0.hard_blocked,
            hard_block_reasons: self.0.hard_block_reasons,
        }
    }
}

impl From<PathBuf> for Driver<Partial> {
    fn from(path: PathBuf) -> (driver: Driver<Partial>) {
        Driver::from_path(path)
    }
}

impl vstd::std_specs::convert::FromSpecImpl<PathBuf> for Driver<Partial> {
    open spec fn obeys_from_spec() -> bool {
        true
    }

    open spec fn from_spec(path: PathBuf) -> Driver<Partial> {
        Driver::<Partial>::spec_from_path(path)
    }
}

impl Driver<Partial> {
    /// Directory of the device's attribute files.
    pub closed spec fn spec_path(&self) -> PathBuf {
        self.0.path
    }

    /// The device of a directory before anything has been read.
    pub closed spec fn spec_from_path(path: PathBuf) -> Driver<Partial> {
        Driver(
            PartiallyReadRepr {
                path,
                name: None,
                kind: None,
                persistent: None,
                soft_blocked: None,
                hard_blocked: None,
                hard_block_reasons: None,
            },
        )
    }

    /// A device of which nothing has been read yet.
    pub fn from_path(path: PathBuf) -> (driver: Driver<Partial>)
        ensures
            driver == Self::spec_from_path(path),
            driver.spec_path() == path,
            driver@ == Attributes::empty(),
    {
        Driver(
            PartiallyReadRepr {
                path,
                name: None,
                kind: None,
                persistent: None,
                soft_blocked: None,
                hard_blocked: None,
                hard_block_reasons: None,
            },
        )
    }

    /// Directory of the device's attribute files.
    pub fn path(&self) -> (path: &PathBuf)
        ensures
            *path == self.spec_path(),
    {
        &self.0.path
    }

    /// Fills the cell of a flag from the text of its file, unless the cell is
    /// full already. A text that is no flag leaves the cell empty.
    pub fn try_read_bool(field: &mut Option<bool>, text: String) -> (result: Result<bool, Error>)
        ensures
            match *old(field) {
                Some(flag) => result == Ok::<bool, Error>(flag) && *final(field) == *old(field),
                None => match flag_of(text@) {
                    Some(flag) => result == Ok::<bool, Error>(flag) && *final(field) == Some(flag),
                    None => *final(field) == None::<bool> && (result matches Err(
                        Error::InvalidNumericValueForBool { value },
                    ) && value@ == text@),
                },
            },
    {
        if let Some(flag) = *field {
            return Ok(flag);
        }
        match parse_flag(text.as_str()) {
            Some(flag) => {
                *field = Some(flag);
                Ok(flag)
            },
            None => Err(Error::InvalidNumericValueForBool { value: text }),
        }
    }

    /// Fills the cell of a value from the text of its file, unless the cell
    /// is full already. A text that stands for no value leaves the cell
    /// empty.
    pub fn try_read_from_str<T: FromText>(field: &mut Option<T>, text: &str) -> (result: Result<
        T,
        Error,
    >)
        ensures
            match *old(field) {
                Some(value) => result == Ok::<T, Error>(value) && *final(field) == *old(field),
                None => result == T::spec_read(text@) && *final(field) == match T::spec_read(
                    text@,
                ) {
                    Ok(value) => Some(value),
                    Err(_) => None,
                },
            },
    {
        if let Some(value) = *field {
            return Ok(value);
        }
        match T::read(text) {
            Ok(value) => {
                *field = Some(value);
                Ok(value)
            },
            Err(error) => Err(error),
        }
    }

    /// Name of the device.
    pub fn try_name(&self) -> (access: Access<&str>)
        ensures
            match self@.name {
                Some(name) => access matches Access::Cached(text) && text@ == name,
                None => access == Access::<&str>::Read(Attribute::Name),
            },
    {
        match &self.0.name {
            Some(name) => Access::Cached(name.as_str()),
            None => Access::Read(Attribute::Name),
        }
    }

    /// Class of the device.
    pub fn try_kind(&self) -> (access: Access<Kind>)
        ensures
            access == match self@.kind {
                Some(kind) => Access::Cached(kind),
                None => Access::Read(Attribute::Kind),
            },
    {
        match self.0.kind {
            Some(kind) => Access::Cached(kind),
            None => Access::Read(Attribute::Kind),
        }
    }

    /// Whether the block state survives a restart.
    pub fn try_persistent(&self) -> (access: Access<bool>)
        ensures
            access == match self@.persistent {
                Some(flag) => Access::Cached(flag),
                None => Access::Read(Attribute::Persistent),
            },
    {
        match self.0.persistent {
            Some(flag) => Access::Cached(flag),
            None => Access::Read(Attribute::Persistent),
        }
    }

    /// Whether software blocks the device.
    pub fn try_soft_blocked(&self) -> (access: Access<bool>)
        ensures
            access == match self@.soft_blocked {
                Some(flag) => Access::Cached(flag),
                None => Access::Read(Attribute::SoftBlocked),
            },
    {
        match self.0.soft_blocked {
            Some(flag) => Access::Cached(flag),
            None => Access::Read(Attribute::SoftBlocked),
        }
    }

    /// Whether hardware blocks the device.
    pub fn try_hard_blocked(&self) -> (access: Access<bool>)
        ensures
            access == match self@.hard_blocked {
                Some(flag) => Access::Cached(flag),
                None => Access::Read(Attribute::HardBlocked),
            },
    {
        match self.0.hard_blocked {
            Some(flag) => Access::Cached(flag),
            None => Access::Read(Attribute::HardBlocked),
        }
    }

    /// Why hardware blocks the device, whether or not it is known to be
    /// hard-blocked.
    pub fn try_hard_block_reasons_unchecked(&self) -> (access: Access<HardBlockReasons>)
        ensures
            access == match self@.hard_block_reasons {
                Some(reasons) => Access::Cached(reasons),
                None => Access::Read(Attribute::HardBlockReasons),
            },
    {
        match self.0.hard_block_reasons {
            Some(reasons) => Access::Cached(reasons),
            None => Access::Read(Attribute::HardBlockReasons),
        }
    }

    /// Why hardware blocks the device. Of a device that is not hard-blocked
    /// the answer is `None`, and the file of reasons is not asked for.
    pub fn try_hard_block_reasons(&self) -> (access: Access<Option<HardBlockReasons>>)
        ensures
            access == self@.checked_reasons(),
    {
        match self.try_hard_blocked() {
            Access::Read(attribute) => Access::Read(attribute),
            Access::Cached(false) => Access::Cached(None),
            Access::Cached(true) => match self.try_hard_block_reasons_unchecked() {
                Access::Cached(reasons) => Access::Cached(Some(reasons)),
                Access::Read(attribute) => Access::Read(attribute),
            },
        }
    }

    /// Whether and how the device is blocked.
    pub fn try_block_status(&self) -> (access: Access<BlockStatus>)
        ensures
            access == self@.block_status(),
    {
        let soft = match self.try_soft_blocked() {
            Access::Cached(soft) => soft,
            Access::Read(attribute) => return Access::Read(attribute),
        };
        match self.try_hard_block_reasons() {
            Access::Cached(hard) => Access::Cached(BlockStatus::from_soft_and_hard(soft, hard)),
            Access::Read(attribute) => Access::Read(attribute),
        }
    }

    /// Takes the text of an attribute file. A text that is understood fills
    /// the attribute, which stays as it is from then on: a later text for
    /// the same attribute is not looked at. A text that is not understood
    /// changes nothing, so that the file can be read again.
    pub fn supply(&mut self, attribute: Attribute, text: String) -> (result: Result<(), Error>)
        ensures
            final(self).spec_path() == old(self).spec_path(),
            result is Ok <==> final(self)@.holds(attribute),
            old(self)@.holds(attribute) ==> result is Ok && final(self)@ == old(self)@,
            !old(self)@.holds(attribute) ==> match old(self)@.understood(attribute, text@) {
                Some(attributes) => result is Ok && final(self)@ == attributes,
                None => final(self)@ == old(self)@ && (result matches Err(error) && rejects(
                    attribute,
                    text@,
                    error,
                )),
            },
    {
        match attribute {
            Attribute::Name => {
                if self.0.name.is_none() {
                    self.0.name = Some(text);
                }
                Ok(())
            },
            Attribute::Kind => match Self::try_read_from_str(&mut self.0.kind, text.as_str()) {
                Ok(_) => Ok(()),
                Err(error) => Err(error),
            },
            Attribute::Persistent => match Self::try_read_bool(&mut self.0.persistent, text) {
                Ok(_) => Ok(()),
                Err(error) => Err(error),
            },
            Attribute::SoftBlocked => match Self::try_read_bool(&mut self.0.soft_blocked, text) {
                Ok(_) => Ok(()),
                Err(error) => Err(error),
            },
            Attribute::HardBlocked => match Self::try_read_bool(&mut self.0.hard_blocked, text) {
                Ok(_) => Ok(()),
                Err(error) => Err(error),
            },
            Attribute::HardBlockReasons => match Self::try_read_from_str(
                &mut self.0.hard_block_reasons,
                text.as_str(),
            ) {
                Ok(_) => Ok(()),
                Err(error) => Err(error),
            },
        }
    }

    /// Turns the device into a fully read one. While an attribute is missing
    /// the device comes back unchanged, with every attribute that it held,
    /// together with the first attribute that is missing.
    pub fn fully_read(self) -> (result: Result<Driver<Full>, (Attribute, Box<Driver<Partial>>)>)
        ensures
            match self@.missing() {
                Some(attribute) => result matches Err((asked, unchanged)) && asked == attribute
                    && *unchanged == self,
                None => result matches Ok(full) && Some(full.spec_name()) == self@.name && Some(
                    full.spec_kind(),
                ) == self@.kind && Some(full.spec_persistent()) == self@.persistent
                    && Access::Cached(full.spec_block_status()) == self@.block_status(),
            },
    {
        if self.0.name.is_none() {
            return Err((Attribute::Name, Box::new(self)));
        }
        let kind = match self.try_kind() {
            Access::Cached(kind) => kind,
            Access::Read(attribute) => return Err((attribute, Box::new(self))),
        };
        let persistent = match self.try_persistent() {
            Access::Cached(persistent) => persistent,
            Access::Read(attribute) => return Err((attribute, Box::new(self))),
        };
        let block_status = match self.try_block_status() {
            Access::Cached(status) => status,
            Access::Read(attribute) => return Err((attribute, Box::new(self))),
        };
        match self.0.name {
            Some(name) => Ok(Driver::promoted(name, kind, persistent, block_status)),
            None => Err((Attribute::Name, Box::new(self))),
        }
    }
}

} // verus!
