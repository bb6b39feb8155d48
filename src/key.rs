use vstd::prelude::*;

verus! {

/// A 32-byte account address.
#[derive(Clone, Copy, Debug)]
pub struct Key {
    pub bytes: [u8; 32],
}

impl View for Key {
    type V = Seq<u8>;

    open spec fn view(&self) -> Seq<u8> {
        self.bytes@
    }
}

impl Key {
    pub fn new(bytes: [u8; 32]) -> (r: Key)
        ensures
            r@ == bytes@,
    {
        Key { bytes }
    }

    /// The address bytes as a vector, in order.
    pub fn to_vec(&self) -> (r: Vec<u8>)
        ensures
            r@ == self@,
    {
        let mut r: Vec<u8> = Vec::new();
        let mut i: usize = 0;
        while i < 32
            invariant
                i <= 32,
                self@.len() == 32,
                r@ == self@.subrange(0, i as int),
            decreases 32 - i,
        {
            r.push(self.bytes[i]);
            i = i + 1;
        }
        assert(r@ =~= self@);
        r
    }
}

impl PartialEq for Key {
    fn eq(&self, o: &Key) -> (r: bool) {
        let mut i: usize = 0;
        while i < 32
            invariant
                i <= 32,
                self@.len() == 32,
                o@.len() == 32,
                self@.subrange(0, i as int) == o@.subrange(0, i as int),
            decreases 32 - i,
        {
            if self.bytes[i] != o.bytes[i] {
                return false;
            }
            assert(self@.subrange(0, i + 1) =~= self@.subrange(0, i as int).push(self@[i as int]));
            assert(o@.subrange(0, i + 1) =~= o@.subrange(0, i as int).push(o@[i as int]));
            i = i + 1;
        }
        assert(self@ =~= self@.subrange(0, 32));
        assert(o@ =~= o@.subrange(0, 32));
        true
    }
}

impl vstd::std_specs::cmp::PartialEqSpecImpl for Key {
    open spec fn obeys_eq_spec() -> bool {
        true
    }

    open spec fn eq_spec(&self, o: &Key) -> bool {
        self@ == o@
    }
}

/// The address of the token program.
pub open spec fn spec_token_program_id() -> Key {
    Key {
        bytes: [
            6, 221, 246, 225, 215, 101, 161, 147, 217, 203, 225, 70, 206, 235, 121, 172,
            28, 180, 133, 237, 95, 91, 55, 145, 58, 140, 245, 133, 126, 255, 0, 169,
        ],
    }
}

/// The address of the token metadata program.
pub open spec fn spec_metadata_program_id() -> Key {
    Key {
        bytes: [
            11, 112, 101, 177, 227, 209, 124, 69, 56, 157, 82, 127, 107, 4, 195, 205,
            88, 184, 108, 115, 26, 160, 253, 181, 73, 182, 209, 188, 3, 248, 41, 70,
        ],
    }
}

/// The address of the system program (all zero bytes).
pub open spec fn spec_system_program_id() -> Key {
    Key {
        bytes: [
            0, 0, 0, 0, 0, 0, 0, 0, 0, 0, 0, 0, 0, 0, 0, 0,
            0, 0, 0, 0, 0, 0, 0, 0, 0, 0, 0, 0, 0, 0, 0, 0,
        ],
    }
}

/// The address of the rent sysvar.
pub open spec fn spec_rent_sysvar_id() -> Key {
    Key {
        bytes: [
            6, 167, 213, 23, 25, 44, 92, 81, 33, 140, 201, 76, 61, 74, 241, 127,
            88, 218, 238, 8, 155, 161, 253, 68, 227, 219, 217, 138, 0, 0, 0, 0,
        ],
    }
}

/// The address of the incinerator, where tokens are sent to be destroyed.
pub open spec fn spec_incinerator_id() -> Key {
    Key {
        bytes: [
            0, 51, 144, 114, 141, 52, 17, 96, 121, 189, 201, 17, 191, 255, 0, 219,
            212, 77, 46, 205, 204, 247, 156, 166, 225, 0, 56, 225, 0, 0, 0, 0,
        ],
    }
}

pub fn token_program_id() -> (r: Key)
    ensures
        r == spec_token_program_id(),
{
    Key {
        bytes: [
            6, 221, 246, 225, 215, 101, 161, 147, 217, 203, 225, 70, 206, 235, 121, 172,
            28, 180, 133, 237, 95, 91, 55, 145, 58, 140, 245, 133, 126, 255, 0, 169,
        ],
    }
}

pub fn metadata_program_id() -> (r: Key)
    ensures
        r == spec_metadata_program_id(),
{
    Key {
        bytes: [
            11, 112, 101, 177, 227, 209, 124, 69, 56, 157, 82, 127, 107, 4, 195, 205,
            88, 184, 108, 115, 26, 160, 253, 181, 73, 182, 209, 188, 3, 248, 41, 70,
        ],
    }
}

pub fn system_program_id() -> (r: Key)
    ensures
        r == spec_system_program_id(),
{
    Key {
        bytes: [
            0, 0, 0, 0, 0, 0, 0, 0, 0, 0, 0, 0, 0, 0, 0, 0,
            0, 0, 0, 0, 0, 0, 0, 0, 0, 0, 0, 0, 0, 0, 0, 0,
        ],
    }
}

pub fn rent_sysvar_id() -> (r: Key)
    ensures
        r == spec_rent_sysvar_id(),
{
    Key {
        bytes: [
            6, 167, 213, 23, 25, 44, 92, 81, 33, 140, 201, 76, 61, 74, 241, 127,
            88, 218, 238, 8, 155, 161, 253, 68, 227, 219, 217, 138, 0, 0, 0, 0,
        ],
    }
}

pub fn incinerator_id() -> (r: Key)
    ensures
        r == spec_incinerator_id(),
{
    Key {
        bytes: [
            0, 51, 144, 114, 141, 52, 17, 96, 121, 189, 201, 17, 191, 255, 0, 219,
            212, 77, 46, 205, 204, 247, 156, 166, 225, 0, 56, 225, 0, 0, 0, 0,
        ],
    }
}

} // verus!
