//! What the handshake asks of the keeper of paired devices. The library
//! consumes these capabilities. Nothing is assumed of their answers: each
//! method that the handshake calls has a relation beside it in which an
//! implementation says what it answers, and of an answer callers learn
//! that it is one of these and no more. An implementation that leaves a
//! relation as it is here admits every answer.

use crate::device_id::DeviceId;
use crate::encryption::{DynamicEncryptionManager, EncryptionSet, EncryptionSetView, EncryptionView};
use vstd::prelude::*;

verus! {

/// The answer to a pair request, with the test value as a sequence.
pub open spec fn approval_view<E>(r: Result<(bool, Option<Vec<u8>>), E>) -> Result<
    (bool, Option<Seq<u8>>),
    E,
> {
    match r {
        Ok((approved, Some(test))) => Ok((approved, Some(test@))),
        Ok((approved, None)) => Ok((approved, None)),
        Err(e) => Err(e),
    }
}

/// The keeper of this device's identity and of its paired devices.
pub trait DeviceManager: Sized {
    /// Why the manager refused.
    type Error;

    /// The record of one paired device.
    type PD: PairedDevice;

    /// Whether `id` is an answer to asking for this device's id.
    open spec fn answers_device_id(&self, id: DeviceId) -> bool {
        true
    }

    /// This device's id.
    fn get_device_id(&self) -> (r: DeviceId)
        ensures
            self.answers_device_id(r),
    ;

    /// This device's name.
    fn get_device_name(&self) -> String;

    /// Whether `paired` is an answer to asking whether `uuid` is paired.
    open spec fn answers_is_paired(&self, uuid: DeviceId, paired: bool) -> bool {
        true
    }

    /// Whether the device is paired.
    fn is_paired(&self, uuid: &DeviceId) -> (r: bool)
        ensures
            self.answers_is_paired(*uuid, r),
    ;

    /// The paired devices.
    fn get_paired_devices(&self) -> Result<Vec<&Self::PD>, Self::Error>;

    /// Whether `outcome` is an answer to asking for the record of
    /// `device_id`.
    open spec fn finds(&self, device_id: DeviceId, outcome: Result<Self::PD, Self::Error>) -> bool {
        true
    }

    /// The record of one paired device.
    fn get_paired_device(&self, device_id: &DeviceId) -> (r: Result<&Self::PD, Self::Error>)
        ensures
            self.finds(*device_id, found_view(r)),
    ;

    /// Whether registering `device_id` with the keys `set` can answer
    /// `outcome` and leave `after` of this manager.
    open spec fn registers(
        &self,
        device_id: DeviceId,
        set: EncryptionSetView,
        outcome: Result<(), Self::Error>,
        after: Self,
    ) -> bool {
        true
    }

    /// Records a device after a successful pairing. A record that exists
    /// for the device is replaced.
    fn register_device(&mut self, device_id: &DeviceId, encryption: EncryptionSet) -> (r: Result<
        (),
        Self::Error,
    >)
        ensures
            old(self).registers(*device_id, encryption@, r, *final(self)),
    ;

    /// Forgets a paired device.
    fn delete_device(&mut self, device_id: &DeviceId) -> Result<(), Self::Error>;

    /// Whether `outcome` is an answer to the pair request of `device_id`
    /// with the given name and details.
    open spec fn answers_pair_request(
        &self,
        device_id: DeviceId,
        device_name: Seq<char>,
        details: Seq<u8>,
        outcome: Result<(bool, Option<Seq<u8>>), Self::Error>,
    ) -> bool {
        true
    }

    /// Asks whether to pair with the device that sent a pair request. The
    /// answer holds the decision and the test value, if one is agreed on.
    fn pair_request(&self, device_id: &DeviceId, device_name: &str, details: &[u8]) -> (r: Result<
        (bool, Option<Vec<u8>>),
        Self::Error,
    >)
        ensures
            self.answers_pair_request(*device_id, device_name@, details@, approval_view(r)),
    ;
}

/// The record that a lookup gave, as a value.
pub open spec fn found_view<PD, E>(r: Result<&PD, E>) -> Result<PD, E> {
    match r {
        Ok(device) => Ok(*device),
        Err(e) => Err(e),
    }
}

/// The record of one paired device.
pub trait PairedDevice: Sized {
    /// The device's id.
    fn get_device_id(&self) -> DeviceId;

    /// Whether `manager` is an encryption that this record gives.
    open spec fn gives_manager(&self, manager: EncryptionView) -> bool {
        true
    }

    /// The encryption for the device. The caller owns the value.
    fn get_encryption_manager(&self) -> (r: DynamicEncryptionManager)
        ensures
            self.gives_manager(r@),
    ;
}

} // verus!
