//! The FT60x chip configuration, carried as an opaque fixed-size record.
use vstd::prelude::*;

verus! {

/// The size in bytes of the FT60x configuration record.
pub const CONFIG_LEN: usize = 152;

/// The configuration that an FT60x chip reads and is programmed with. Its
/// fields are not decoded here: the record is kept byte for byte.
#[derive(Debug, Clone)]
pub struct FT60xConfig {
    bytes: Vec<u8>,
}

impl View for FT60xConfig {
    type V = Seq<u8>;

    closed spec fn view(&self) -> Seq<u8> {
        self.bytes@
    }
}

impl FT60xConfig {
    pub closed spec fn wf(&self) -> bool {
        self.bytes@.len() == CONFIG_LEN
    }

    /// Takes a configuration record as the chip delivered it. Anything but
    /// exactly `CONFIG_LEN` bytes is no configuration.
    pub fn parse(buf: &[u8]) -> (r: Option<FT60xConfig>)
        ensures
            r is Some <==> buf@.len() == CONFIG_LEN,
            r matches Some(c) ==> c@ == buf@ && c.wf(),
    {
        if buf.len() != CONFIG_LEN {
            return None;
        }
        let mut bytes: Vec<u8> = Vec::new();
        let mut i: usize = 0;
        while i < buf.len()
            invariant
                i <= buf@.len(),
                bytes@ == buf@.subrange(0, i as int),
            decreases buf@.len() - i,
        {
            bytes.push(buf[i]);
            i = i + 1;
            assert(bytes@ =~= buf@.subrange(0, i as int));
        }
        assert(bytes@ =~= buf@);
        Some(FT60xConfig { bytes })
    }

    /// The record to program the chip with.
    pub fn encode(&self) -> (r: Vec<u8>)
        requires
            self.wf(),
        ensures
            r@ == self@,
            r@.len() == CONFIG_LEN,
    {
        self.bytes.clone()
    }
}

} // verus!
