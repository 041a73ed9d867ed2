//! The device reboot: one command, one acknowledgement.

use crate::exchange::{Exchange, ExchangeView};
use crate::message::{byte_sum_upto, BesMessage, MessageTypes, MessageView, BES_SYNC};
use crate::transport::{Action, ActionView};
use vstd::prelude::*;

verus! {

/// The command that reboots the device.
pub open spec fn device_reboot_message() -> MessageView {
    MessageView {
        sync: BES_SYNC,
        type1: MessageTypes::DeviceCommand,
        payload: seq![0x00, 0x01, 0xF1],
        checksum: 0x4F,
    }
}

/// The reboot command carries the checksum that its body calls for.
pub proof fn lemma_reboot_message_is_sealed()
    ensures
        device_reboot_message().is_sealed(),
{
    reveal_with_fuel(byte_sum_upto, 6);
}

/// Builds the command that reboots the device.
pub fn get_device_reboot_message() -> (r: BesMessage)
    ensures
        r@ == device_reboot_message(),
{
    let mut device_reboot_message = BesMessage {
        sync: BES_SYNC,
        type1: MessageTypes::DeviceCommand,
        payload: vec![0x00, 0x01, 0xF1],
        checksum: 0,
    };
    device_reboot_message.set_checksum();
    proof {
        lemma_reboot_message_is_sealed();
    }
    device_reboot_message
}

/// Begins the reboot of the device: the command goes out, and a message of
/// type `DeviceCommand` is awaited as its acknowledgement.
pub fn send_device_reboot() -> (r: (Exchange, Action))
    ensures
        r.0.wf(),
        r.0@ == ExchangeView::begin(MessageTypes::DeviceCommand),
        r.1@ == ActionView::Send(device_reboot_message().encode()),
{
    Exchange::begin(&get_device_reboot_message(), MessageTypes::DeviceCommand)
}

} // verus!
