//! A mutable header record with raw field accessors: the code kept as its
//! bare byte, with class and detail views, beside the typed header codec of
//! the message layer.

use vstd::prelude::*;

verus! {

/// The message type of the raw header record; `Unset` marks a cleared
/// record that no wire value has filled yet.
#[derive(Clone, Copy, Debug, PartialEq, Eq, Structural)]
pub enum MessageType {
    Unset,
    Confirmable,
    NonConfirmable,
    Acknowledgement,
    Reset,
}

/// A raw header under construction: version, type, token length, bare code
/// byte and message id.
pub struct Header {
    pub h_version: u8,
    pub h_type: MessageType,
    pub h_tkl: u8,
    pub h_code: u8,
    pub h_id: u16,
}

impl Header {
    /// A fresh record: version 1, no type, everything else zero.
    pub fn new() -> (r: Result<Header, ()>)
        ensures
            r matches Ok(h) && h.h_version == 1 && h.h_type == MessageType::Unset && h.h_tkl == 0
                && h.h_code == 0 && h.h_id == 0,
    {
        let header = Header {
            h_version: 1,
            h_type: MessageType::Unset,
            h_tkl: 0,
            h_code: 0,
            h_id: 0,
        };
        Ok(header)
    }

    /// Puts the record back in its fresh state.
    pub fn clear(&mut self)
        ensures
            final(self).h_version == 1,
            final(self).h_type == MessageType::Unset,
            final(self).h_tkl == 0,
            final(self).h_code == 0,
            final(self).h_id == 0,
    {
        self.h_version = 1;
        self.h_type = MessageType::Unset;
        self.h_tkl = 0;
        self.h_code = 0;
        self.h_id = 0;
    }

    pub fn get_version(&self) -> (v: u8)
        ensures
            v == self.h_version,
    {
        self.h_version
    }

    pub fn set_version(&mut self, ver: u8)
        ensures
            *final(self) == (Header { h_version: ver, ..*old(self) }),
    {
        self.h_version = ver;
    }

    pub fn get_type(&self) -> (t: MessageType)
        ensures
            t == self.h_type,
    {
        let t = match self.h_type {
            MessageType::Unset => MessageType::Unset,
            MessageType::Confirmable => MessageType::Confirmable,
            MessageType::NonConfirmable => MessageType::NonConfirmable,
            MessageType::Acknowledgement => MessageType::Acknowledgement,
            MessageType::Reset => MessageType::Reset,
        };
        t
    }

    pub fn set_type(&mut self, t: MessageType)
        ensures
            *final(self) == (Header { h_type: t, ..*old(self) }),
    {
        self.h_type = t;
    }

    pub fn get_tkl(&self) -> (tkl: u8)
        ensures
            tkl == self.h_tkl,
    {
        self.h_tkl
    }

    pub fn set_tkl(&mut self, t: u8)
        ensures
            *final(self) == (Header { h_tkl: t, ..*old(self) }),
    {
        self.h_tkl = t;
    }

    pub fn get_code(&self) -> (c: u8)
        ensures
            c == self.h_code,
    {
        self.h_code
    }

    pub fn set_code(&mut self, c: u8)
        ensures
            *final(self) == (Header { h_code: c, ..*old(self) }),
    {
        self.h_code = c;
    }

    pub fn get_id(&self) -> (id: u16)
        ensures
            id == self.h_id,
    {
        self.h_id
    }

    pub fn set_id(&mut self, id: u16)
        ensures
            *final(self) == (Header { h_id: id, ..*old(self) }),
    {
        self.h_id = id;
    }

    /// The class part of the code byte: its upper three bits.
    pub fn get_classcode(&self) -> (c: u8)
        ensures
            c == self.h_code / 32,
    {
        self.h_code / 32
    }

    /// Replaces the class part of the code byte, keeping the detail part.
    /// Classes above 7 do not fit their three bits; the caller keeps them in
    /// range.
    pub fn set_classcode(&mut self, c: u8)
        requires
            c < 8,
        ensures
            *final(self) == (Header {
                h_code: (c * 32 + old(self).h_code % 32) as u8,
                ..*old(self)
            }),
    {
        let detailcode = self.h_code % 32;
        self.h_code = c * 32 + detailcode;
    }

    /// The detail part of the code byte: its lower five bits.
    pub fn get_detailcode(&self) -> (c: u8)
        ensures
            c == self.h_code % 32,
    {
        self.h_code % 32
    }

    /// Replaces the detail part of the code byte, keeping the class part.
    /// Details above 31 do not fit their five bits; the caller keeps them in
    /// range.
    pub fn set_detailcode(&mut self, c: u8)
        requires
            c < 32,
        ensures
            *final(self) == (Header {
                h_code: (old(self).h_code / 32 * 32 + c) as u8,
                ..*old(self)
            }),
    {
        let classcode = self.h_code / 32 * 32;
        self.h_code = classcode + c;
    }

    /// The wire value of a message type; the unset type gets the out-of-band
    /// marker 100.
    pub fn type_to_number(&self, t: MessageType) -> (n: u8)
        ensures
            n == match t {
                MessageType::Confirmable => 0u8,
                MessageType::NonConfirmable => 1u8,
                MessageType::Acknowledgement => 2u8,
                MessageType::Reset => 3u8,
                MessageType::Unset => 100u8,
            },
    {
        let num = match t {
            MessageType::Confirmable => 0,
            MessageType::NonConfirmable => 1,
            MessageType::Acknowledgement => 2,
            MessageType::Reset => 3,
            MessageType::Unset => 100,
        };
        num
    }

    /// The message type named by a wire value; anything above 3 is unset.
    pub fn number_to_type(&self, n: u8) -> (t: MessageType)
        ensures
            t == if n == 0 {
                MessageType::Confirmable
            } else if n == 1 {
                MessageType::NonConfirmable
            } else if n == 2 {
                MessageType::Acknowledgement
            } else if n == 3 {
                MessageType::Reset
            } else {
                MessageType::Unset
            },
    {
        let t = match n {
            0 => MessageType::Confirmable,
            1 => MessageType::NonConfirmable,
            2 => MessageType::Acknowledgement,
            3 => MessageType::Reset,
            _ => MessageType::Unset,
        };
        t
    }
}

} // verus!
