//! WiFi credentials and connection state.

use vstd::prelude::*;
use vstd::utf8::valid_utf8;
use vstd::string::StringSliceAdditionalSpecFns;
use crate::text::prefix_str_or;

verus! {

/// The first `cap` bytes of `bytes` (all of them if shorter).
pub open spec fn truncated(bytes: Seq<u8>, cap: nat) -> Seq<u8> {
    if bytes.len() <= cap {
        bytes
    } else {
        bytes.subrange(0, cap as int)
    }
}

/// Copies the first `len` bytes of `src` into the start of `dst`.
pub fn copy_prefix<const N: usize>(dst: &mut [u8; N], src: &[u8], len: usize)
    requires
        len <= N,
        len <= src@.len(),
    ensures
        final(dst)@.subrange(0, len as int) == src@.subrange(0, len as int),
        forall|i: int| len <= i < N ==> #[trigger] final(dst)@[i] == old(dst)@[i],
{
    let mut i: usize = 0;
    while i < len
        invariant
            i <= len <= N,
            len <= src@.len(),
            forall|j: int| 0 <= j < i ==> #[trigger] dst@[j] == src@[j],
            forall|j: int| i <= j < N ==> #[trigger] dst@[j] == old(dst)@[j],
        decreases len - i,
    {
        dst[i] = src[i];
        i += 1;
    }
    assert(dst@.subrange(0, len as int) =~= src@.subrange(0, len as int));
}

/// SSID (up to 32 bytes) and password (up to 64 bytes) to connect with.
pub struct WifiConfig {
    pub ssid: [u8; 32],
    pub ssid_len: usize,
    pub password: [u8; 64],
    pub pass_len: usize,
}

impl WifiConfig {
    pub open spec fn wf(&self) -> bool {
        self.ssid_len <= 32 && self.pass_len <= 64
    }

    /// The stored SSID bytes.
    pub open spec fn ssid_bytes(&self) -> Seq<u8> {
        self.ssid@.subrange(0, self.ssid_len as int)
    }

    /// The stored password bytes.
    pub open spec fn password_bytes(&self) -> Seq<u8> {
        self.password@.subrange(0, self.pass_len as int)
    }

    pub fn new() -> (c: Self)
        ensures
            c.wf(),
            c.ssid_len == 0 && c.pass_len == 0,
            forall|i: int| 0 <= i < 32 ==> c.ssid@[i] == 0,
            forall|i: int| 0 <= i < 64 ==> c.password@[i] == 0,
    {
        WifiConfig { ssid: [0u8; 32], ssid_len: 0, password: [0u8; 64], pass_len: 0 }
    }

    /// Stores the SSID, cut to 32 bytes.
    pub fn set_ssid(&mut self, s: &str)
        ensures
            final(self).ssid_len <= 32,
            final(self).ssid_bytes() == truncated(s.spec_bytes(), 32),
            forall|i: int| final(self).ssid_len <= i < 32 ==> #[trigger] final(self).ssid@[i] == old(self).ssid@[i],
            final(self).password == old(self).password && final(self).pass_len == old(self).pass_len,
    {
        let bytes = s.as_bytes();
        let len = if bytes.len() < 32 {
            bytes.len()
        } else {
            32
        };
        copy_prefix(&mut self.ssid, bytes, len);
        self.ssid_len = len;
    }

    /// Stores the password, cut to 64 bytes.
    pub fn set_password(&mut self, p: &str)
        ensures
            final(self).pass_len <= 64,
            final(self).password_bytes() == truncated(p.spec_bytes(), 64),
            forall|i: int| final(self).pass_len <= i < 64 ==> #[trigger] final(self).password@[i] == old(self).password@[i],
            final(self).ssid == old(self).ssid && final(self).ssid_len == old(self).ssid_len,
    {
        let bytes = p.as_bytes();
        let len = if bytes.len() < 64 {
            bytes.len()
        } else {
            64
        };
        copy_prefix(&mut self.password, bytes, len);
        self.pass_len = len;
    }

    /// The SSID as text; empty when the stored bytes are not UTF-8 (a cut
    /// may split a character).
    pub fn ssid_str(&self) -> (r: &str)
        requires
            self.wf(),
        ensures
            valid_utf8(self.ssid_bytes()) ==> r.spec_bytes() == self.ssid_bytes(),
            !valid_utf8(self.ssid_bytes()) ==> r == "",
    {
        prefix_str_or(self.ssid.as_slice(), self.ssid_len, "")
    }
}

/// WiFi connection state.
#[derive(Clone, Copy, PartialEq, Eq, Debug, Structural)]
pub enum WifiState {
    Disconnected,
    Connecting,
    Connected,
    Error,
}

/// One network found by a scan: SSID and signal strength.
pub struct ScanResult {
    pub ssid: [u8; 32],
    pub ssid_len: usize,
    pub rssi: i8,
}

impl ScanResult {
    /// The SSID as text, or `?` when it is not UTF-8.
    pub fn ssid_str(&self) -> (r: &str)
        requires
            self.ssid_len <= 32,
        ensures
            valid_utf8(self.ssid@.subrange(0, self.ssid_len as int)) ==> r.spec_bytes()
                == self.ssid@.subrange(0, self.ssid_len as int),
            !valid_utf8(self.ssid@.subrange(0, self.ssid_len as int)) ==> r == "?",
    {
        prefix_str_or(self.ssid.as_slice(), self.ssid_len, "?")
    }
}

} // verus!
