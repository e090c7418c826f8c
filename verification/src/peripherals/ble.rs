//! BLE advertising over raw HCI: the three commands that make the watch
//! discoverable as "Rust Watch", and the one that stops it. Every command is
//! framed for the H4 transport (leading 0x01); the caller writes them out.

use vstd::prelude::*;
use crate::text::push_all;

verus! {

/// The advertised name, `Rust Watch`.
pub open spec fn device_name() -> Seq<u8> {
    seq![82u8, 117, 115, 116, 32, 87, 97, 116, 99, 104]
}

/// LE Set Advertising Parameters (opcode 0x2006): 1.28 s interval,
/// connectable undirected, public address, all three channels, no filter.
pub open spec fn adv_params_command() -> Seq<u8> {
    seq![0x01u8, 0x06, 0x20, 15, 0x00, 0x08, 0x00, 0x08, 0x00, 0x00, 0x00, 0, 0, 0, 0, 0, 0, 0x07, 0x00]
}

/// LE Set Advertising Data (opcode 0x2008), 32 parameter bytes: the count of
/// significant octets (15), the Flags structure (general discoverable, no
/// BR/EDR), the Complete Local Name structure, then zero padding.
pub open spec fn adv_data_command() -> Seq<u8> {
    seq![0x01u8, 0x08, 0x20, 32, 15, 2, 0x01, 0x06, 11, 0x09] + device_name() + Seq::new(16, |i: int| 0u8)
}

/// LE Set Advertising Enable (opcode 0x200A).
pub open spec fn adv_enable_command(enable: bool) -> Seq<u8> {
    seq![0x01u8, 0x0A, 0x20, 1, if enable { 1u8 } else { 0u8 }]
}

/// The parameters command.
pub fn adv_params() -> (r: Vec<u8>)
    ensures
        r@ == adv_params_command(),
{
    let bytes: [u8; 19] = [0x01u8, 0x06, 0x20, 15, 0x00, 0x08, 0x00, 0x08, 0x00, 0x00, 0x00, 0, 0, 0, 0, 0, 0, 0x07, 0x00];
    let mut out: Vec<u8> = Vec::new();
    push_all(&mut out, bytes.as_slice());
    assert(out@ =~= adv_params_command());
    out
}

/// The advertising data command.
pub fn adv_data() -> (r: Vec<u8>)
    ensures
        r@ == adv_data_command(),
{
    let head: [u8; 10] = [0x01u8, 0x08, 0x20, 32, 15, 2, 0x01, 0x06, 11, 0x09];
    let name: [u8; 10] = [82u8, 117, 115, 116, 32, 87, 97, 116, 99, 104];
    let pad: [u8; 16] = [0u8; 16];
    let mut out: Vec<u8> = Vec::new();
    push_all(&mut out, head.as_slice());
    push_all(&mut out, name.as_slice());
    push_all(&mut out, pad.as_slice());
    assert(name@ =~= device_name());
    assert(pad@ =~= Seq::new(16, |i: int| 0u8));
    assert(out@ =~= adv_data_command());
    out
}

/// The enable (or disable) command.
pub fn adv_enable(enable: bool) -> (r: Vec<u8>)
    ensures
        r@ == adv_enable_command(enable),
{
    let mut out: Vec<u8> = Vec::new();
    out.push(0x01u8);
    out.push(0x0Au8);
    out.push(0x20u8);
    out.push(1u8);
    out.push(if enable { 1u8 } else { 0u8 });
    assert(out@ =~= adv_enable_command(enable));
    out
}

/// The commands that start advertising, in the order they are sent.
pub fn start_advertising_commands() -> (r: Vec<Vec<u8>>)
    ensures
        r@.len() == 3,
        r@[0]@ == adv_params_command(),
        r@[1]@ == adv_data_command(),
        r@[2]@ == adv_enable_command(true),
{
    let mut v: Vec<Vec<u8>> = Vec::new();
    v.push(adv_params());
    v.push(adv_data());
    v.push(adv_enable(true));
    v
}

/// The command that stops advertising.
pub fn stop_advertising_commands() -> (r: Vec<Vec<u8>>)
    ensures
        r@.len() == 1,
        r@[0]@ == adv_enable_command(false),
{
    let mut v: Vec<Vec<u8>> = Vec::new();
    v.push(adv_enable(false));
    v
}

/// Each command's length byte matches its parameters.
pub proof fn lemma_commands_framed()
    ensures
        adv_params_command().len() == 4 + adv_params_command()[3],
        adv_data_command().len() == 4 + adv_data_command()[3],
        adv_enable_command(true).len() == 4 + adv_enable_command(true)[3],
        adv_enable_command(false).len() == 4 + adv_enable_command(false)[3],
{
}

} // verus!
