//! The serial port: the data and control registers, and a text buffer that
//! gathers every byte sent.

use vstd::prelude::*;

verus! {

pub struct SerialPort {
    pub sb: u8,
    pub sc: u8,
    pub output: String,
}

/// The serial port as plain values.
pub struct SerialModel {
    pub sb: u8,
    pub sc: u8,
    pub output: Seq<char>,
}

impl SerialModel {
    pub open spec fn reg(&self, addr: u16) -> u8 {
        if addr == 0xFF01 {
            self.sb
        } else if addr == 0xFF02 {
            self.sc
        } else {
            0xFF
        }
    }

    /// A write to the control register with the transfer-start bit (bit 7)
    /// set sends the data byte: it is appended to the output, and the
    /// transfer is over at once, so the bit reads back clear.
    pub open spec fn with_reg(self, addr: u16, value: u8) -> SerialModel {
        if addr == 0xFF01 {
            SerialModel { sb: value, ..self }
        } else if addr == 0xFF02 {
            if value >= 0x80 {
                SerialModel {
                    sc: (value - 0x80) as u8,
                    output: self.output.push(self.sb as char),
                    ..self
                }
            } else {
                SerialModel { sc: value, ..self }
            }
        } else {
            self
        }
    }
}

impl View for SerialPort {
    type V = SerialModel;

    open spec fn view(&self) -> SerialModel {
        SerialModel { sb: self.sb, sc: self.sc, output: self.output@ }
    }
}

/// `String::push`: the character is appended to the string.
#[verifier::external_body]
fn push_char(s: &mut String, c: char)
    ensures
        final(s)@ == old(s)@.push(c),
{
    s.push(c)
}

impl SerialPort {
    pub fn new() -> (r: Self)
        ensures
            r@ == (SerialModel { sb: 0, sc: 0, output: Seq::empty() }),
    {
        Self { sb: 0, sc: 0, output: String::new() }
    }

    pub fn read_reg(&self, addr: u16) -> (r: u8)
        ensures
            r == self@.reg(addr),
    {
        match addr {
            0xFF01 => self.sb,
            0xFF02 => self.sc,
            _ => 0xFF,
        }
    }

    pub fn write_reg(&mut self, addr: u16, value: u8)
        ensures
            final(self)@ == old(self)@.with_reg(addr, value),
    {
        match addr {
            0xFF01 => self.sb = value,
            0xFF02 => {
                self.sc = value;
                if value >= 0x80 {
                    push_char(&mut self.output, self.sb as char);
                    self.sc = value - 0x80;
                }
            },
            _ => (),
        }
    }
}

} // verus!
