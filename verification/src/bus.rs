//! The register-level transport every driver is built on.
//!
//! A [`Bus`] value stands for one addressed device on the shared serial bus:
//! it can read or write a single register byte, read a block of consecutive
//! register bytes, write one 16-bit big-endian register, and pause between
//! polling attempts. One transport instance is injected into each driver at
//! construction and owned by it from then on; the drivers never open a
//! transport themselves.
//!
//! [`ScriptedBus`] is the crate's own canned transport: it answers reads from
//! fixed reply queues and records writes, so every driver can be exercised
//! deterministically with no hardware present.

use crate::errors::SensorError;
use vstd::prelude::*;

verus! {

/// Addressed single- and multi-byte register access to one device.
///
/// A transport may fail any operation, but when it fails it reports
/// `BusIoError`, and a successful block read returns exactly the number of
/// bytes asked for.
pub trait Bus: Sized {
    /// Reads one register byte.
    fn read_byte(&mut self, reg: u8) -> (r: Result<u8, SensorError>)
        ensures
            r matches Err(e) ==> e == SensorError::BusIoError,
    ;

    /// Writes one register byte.
    fn write_byte(&mut self, reg: u8, val: u8) -> (r: Result<(), SensorError>)
        ensures
            r matches Err(e) ==> e == SensorError::BusIoError,
    ;

    /// Reads `len` consecutive register bytes starting at `reg`.
    fn read_block(&mut self, reg: u8, len: usize) -> (r: Result<Vec<u8>, SensorError>)
        ensures
            r matches Ok(v) ==> v@.len() == len,
            r matches Err(e) ==> e == SensorError::BusIoError,
    ;

    /// Writes one 16-bit register, most significant byte first on the wire.
    fn write_word_be(&mut self, reg: u8, val: u16) -> (r: Result<(), SensorError>)
        ensures
            r matches Err(e) ==> e == SensorError::BusIoError,
    ;

    /// Pauses between two polling attempts; a canned transport does nothing.
    fn sleep_ms(&mut self, ms: u32);
}

/// A canned transport: byte reads and block reads are answered from two
/// reply queues, writes are recorded, and nothing touches real hardware.
///
/// An exhausted queue answers `BusIoError`, and a scripted block whose
/// length differs from the one requested does too, so transport failures can
/// be staged at any point of a driver's protocol.
pub struct ScriptedBus {
    /// Replies still queued for single-byte reads, next first.
    pub byte_replies: Vec<u8>,
    /// Replies still queued for block reads, next first.
    pub block_replies: Vec<Vec<u8>>,
    /// Every single-byte register write seen so far, oldest first.
    pub byte_writes: Vec<(u8, u8)>,
    /// Every 16-bit register write seen so far, oldest first.
    pub word_writes: Vec<(u8, u16)>,
}

impl ScriptedBus {
    /// A transport that will answer single-byte reads from `byte_replies`
    /// and block reads from `block_replies`, both in order.
    pub fn new(byte_replies: Vec<u8>, block_replies: Vec<Vec<u8>>) -> (r: ScriptedBus)
        ensures
            r.byte_replies@ == byte_replies@,
            r.block_replies@ == block_replies@,
            r.byte_writes@.len() == 0,
            r.word_writes@.len() == 0,
    {
        ScriptedBus { byte_replies, block_replies, byte_writes: Vec::new(), word_writes: Vec::new() }
    }

}

impl Bus for ScriptedBus {
    fn read_byte(&mut self, reg: u8) -> (r: Result<u8, SensorError>)
        ensures
            old(self).byte_replies@.len() > 0 ==> r == Ok::<u8, SensorError>(
                old(self).byte_replies@[0],
            ) && final(self).byte_replies@ == old(self).byte_replies@.skip(1),
            old(self).byte_replies@.len() == 0 ==> r == Err::<u8, SensorError>(
                SensorError::BusIoError,
            ),
    {
        if self.byte_replies.len() > 0 {
            let b = self.byte_replies.remove(0);
            Ok(b)
        } else {
            Err(SensorError::BusIoError)
        }
    }

    fn write_byte(&mut self, reg: u8, val: u8) -> (r: Result<(), SensorError>)
        ensures
            r == Ok::<(), SensorError>(()),
            final(self).byte_writes@ == old(self).byte_writes@.push((reg, val)),
    {
        self.byte_writes.push((reg, val));
        Ok(())
    }

    fn read_block(&mut self, reg: u8, len: usize) -> (r: Result<Vec<u8>, SensorError>)
        ensures
            (old(self).block_replies@.len() > 0 && old(self).block_replies@[0]@.len() == len)
                ==> (r matches Ok(v) && v@ == old(self).block_replies@[0]@ && final(self).block_replies@
                == old(self).block_replies@.skip(1)),
            !(old(self).block_replies@.len() > 0 && old(self).block_replies@[0]@.len() == len)
                ==> r == Err::<Vec<u8>, SensorError>(SensorError::BusIoError),
    {
        if self.block_replies.len() > 0 {
            let block = self.block_replies.remove(0);
            if block.len() == len {
                Ok(block)
            } else {
                Err(SensorError::BusIoError)
            }
        } else {
            Err(SensorError::BusIoError)
        }
    }

    fn write_word_be(&mut self, reg: u8, val: u16) -> (r: Result<(), SensorError>)
        ensures
            r == Ok::<(), SensorError>(()),
            final(self).word_writes@ == old(self).word_writes@.push((reg, val)),
    {
        self.word_writes.push((reg, val));
        Ok(())
    }

    fn sleep_ms(&mut self, ms: u32) {
    }
}

} // verus!
