use vstd::prelude::*;

use crate::channel::{encrypt, sealed_frame, KeyModel, LoginKeychain};
use crate::error::CoreError;
use crate::frame::{frame_bytes, Attribute, Direction, FrameModel, ReadWrite, ScooterCommand};

verus! {

/// Write 0x0001 to the lock register.
pub open spec fn lock_frame() -> FrameModel {
    FrameModel {
        direction: Direction::MasterToMotor,
        read_write: ReadWrite::Write,
        attribute: Attribute::Lock,
        payload: seq![0x01u8, 0x00],
    }
}

/// Write 0x0001 to the unlock register.
pub open spec fn unlock_frame() -> FrameModel {
    FrameModel {
        direction: Direction::MasterToMotor,
        read_write: ReadWrite::Write,
        attribute: Attribute::Unlock,
        payload: seq![0x01u8, 0x00],
    }
}

/// Write 0x0002 (always on) or 0x0000 (off) to the tail light register.
pub open spec fn light_frame(on: bool) -> FrameModel {
    FrameModel {
        direction: Direction::MasterToMotor,
        read_write: ReadWrite::Write,
        attribute: Attribute::TailLight,
        payload: if on {
            seq![0x02u8, 0x00]
        } else {
            seq![0x00u8, 0x00]
        },
    }
}

fn write_command(attribute: Attribute, low: u8) -> (r: ScooterCommand)
    ensures
        r@ == (FrameModel {
            direction: Direction::MasterToMotor,
            read_write: ReadWrite::Write,
            attribute,
            payload: seq![low, 0x00u8],
        }),
{
    let payload = vec![low, 0x00u8];
    let r = ScooterCommand {
        direction: Direction::MasterToMotor,
        read_write: ReadWrite::Write,
        attribute,
        payload,
    };
    assert(r@.payload =~= seq![low, 0x00u8]);
    r
}

/// An established session with the motor controller: its keys and the
/// counter of the next frame it sends.
#[derive(Debug)]
pub struct MiSession {
    keys: LoginKeychain,
    tx_counter: u32,
}

impl MiSession {
    pub closed spec fn wf(&self) -> bool {
        self.keys.wf()
    }

    /// The key that protects what this session sends.
    pub closed spec fn send_key(&self) -> KeyModel {
        self.keys.app@
    }

    /// The counter of the next frame sent.
    pub closed spec fn counter(&self) -> u32 {
        self.tx_counter
    }

    /// A session over freshly derived keys; its first frame takes counter 0.
    pub fn new(keys: LoginKeychain) -> (r: MiSession)
        requires
            keys.wf(),
        ensures
            r.wf(),
            r.send_key() == keys.app@,
            r.counter() == 0,
    {
        MiSession { keys, tx_counter: 0 }
    }

    /// Seals a command under the next counter and moves the counter on;
    /// returns the bytes to write to the device.
    pub fn send(&mut self, cmd: &ScooterCommand) -> (r: Result<Vec<u8>, CoreError>)
        requires
            old(self).wf(),
            cmd.payload@.len() <= crate::frame::MAX_FRAME_PAYLOAD,
        ensures
            final(self).wf(),
            final(self).send_key() == old(self).send_key(),
            match r {
                Ok(bytes) => old(self).counter() < u32::MAX && bytes@ == sealed_frame(
                    old(self).send_key(),
                    frame_bytes(cmd@),
                    old(self).counter(),
                ) && final(self).counter() == old(self).counter() + 1,
                Err(e) => e == CoreError::CounterExhausted && old(self).counter() == u32::MAX
                    && final(self).counter() == old(self).counter(),
            },
    {
        if self.tx_counter == u32::MAX {
            return Err(CoreError::CounterExhausted);
        }
        let plain = cmd.as_bytes();
        let sealed = encrypt(&self.keys.app, plain.as_slice(), self.tx_counter);
        self.tx_counter = self.tx_counter + 1;
        Ok(sealed)
    }

    /// Locks the motor: the controller then ignores the throttle.
    pub fn lock(&mut self) -> (r: Result<Vec<u8>, CoreError>)
        requires
            old(self).wf(),
        ensures
            final(self).wf(),
            final(self).send_key() == old(self).send_key(),
            match r {
                Ok(bytes) => old(self).counter() < u32::MAX && bytes@ == sealed_frame(
                    old(self).send_key(),
                    frame_bytes(lock_frame()),
                    old(self).counter(),
                ) && final(self).counter() == old(self).counter() + 1,
                Err(e) => e == CoreError::CounterExhausted && old(self).counter() == u32::MAX
                    && final(self).counter() == old(self).counter(),
            },
    {
        let cmd = write_command(Attribute::Lock, 0x01);
        self.send(&cmd)
    }

    /// Unlocks the motor.
    pub fn unlock(&mut self) -> (r: Result<Vec<u8>, CoreError>)
        requires
            old(self).wf(),
        ensures
            final(self).wf(),
            final(self).send_key() == old(self).send_key(),
            match r {
                Ok(bytes) => old(self).counter() < u32::MAX && bytes@ == sealed_frame(
                    old(self).send_key(),
                    frame_bytes(unlock_frame()),
                    old(self).counter(),
                ) && final(self).counter() == old(self).counter() + 1,
                Err(e) => e == CoreError::CounterExhausted && old(self).counter() == u32::MAX
                    && final(self).counter() == old(self).counter(),
            },
    {
        let cmd = write_command(Attribute::Unlock, 0x01);
        self.send(&cmd)
    }

    /// Locks the motor when `locked` holds, unlocks it otherwise.
    pub fn set_lock(&mut self, locked: bool) -> (r: Result<Vec<u8>, CoreError>)
        requires
            old(self).wf(),
        ensures
            final(self).wf(),
            final(self).send_key() == old(self).send_key(),
            match r {
                Ok(bytes) => old(self).counter() < u32::MAX && bytes@ == sealed_frame(
                    old(self).send_key(),
                    frame_bytes(
                        if locked {
                            lock_frame()
                        } else {
                            unlock_frame()
                        },
                    ),
                    old(self).counter(),
                ) && final(self).counter() == old(self).counter() + 1,
                Err(e) => e == CoreError::CounterExhausted && old(self).counter() == u32::MAX
                    && final(self).counter() == old(self).counter(),
            },
    {
        if locked {
            self.lock()
        } else {
            self.unlock()
        }
    }

    /// Turns the tail light on, always lit.
    pub fn light_on(&mut self) -> (r: Result<Vec<u8>, CoreError>)
        requires
            old(self).wf(),
        ensures
            final(self).wf(),
            final(self).send_key() == old(self).send_key(),
            match r {
                Ok(bytes) => old(self).counter() < u32::MAX && bytes@ == sealed_frame(
                    old(self).send_key(),
                    frame_bytes(light_frame(true)),
                    old(self).counter(),
                ) && final(self).counter() == old(self).counter() + 1,
                Err(e) => e == CoreError::CounterExhausted && old(self).counter() == u32::MAX
                    && final(self).counter() == old(self).counter(),
            },
    {
        let cmd = write_command(Attribute::TailLight, 0x02);
        self.send(&cmd)
    }

    /// Turns the tail light off.
    pub fn light_off(&mut self) -> (r: Result<Vec<u8>, CoreError>)
        requires
            old(self).wf(),
        ensures
            final(self).wf(),
            final(self).send_key() == old(self).send_key(),
            match r {
                Ok(bytes) => old(self).counter() < u32::MAX && bytes@ == sealed_frame(
                    old(self).send_key(),
                    frame_bytes(light_frame(false)),
                    old(self).counter(),
                ) && final(self).counter() == old(self).counter() + 1,
                Err(e) => e == CoreError::CounterExhausted && old(self).counter() == u32::MAX
                    && final(self).counter() == old(self).counter(),
            },
    {
        let cmd = write_command(Attribute::TailLight, 0x00);
        self.send(&cmd)
    }

    /// Turns the tail light on when `on` holds, off otherwise.
    pub fn set_light(&mut self, on: bool) -> (r: Result<Vec<u8>, CoreError>)
        requires
            old(self).wf(),
        ensures
            final(self).wf(),
            final(self).send_key() == old(self).send_key(),
            match r {
                Ok(bytes) => old(self).counter() < u32::MAX && bytes@ == sealed_frame(
                    old(self).send_key(),
                    frame_bytes(light_frame(on)),
                    old(self).counter(),
                ) && final(self).counter() == old(self).counter() + 1,
                Err(e) => e == CoreError::CounterExhausted && old(self).counter() == u32::MAX
                    && final(self).counter() == old(self).counter(),
            },
    {
        if on {
            self.light_on()
        } else {
            self.light_off()
        }
    }
}

} // verus!
