//! Shared data models and constants.
pub mod consts;
pub mod disk;
pub mod network;
pub mod resources;
pub mod storage;

use vstd::prelude::*;
use vstd::string::*;
use vstd::utf8::*;

use crate::text::{
    ascii_alnum, char_vec, debug_form, debug_text, decimal, decimal_text, is_ascii_alnum, same,
};

verus! {

/// Target VM identifier used by shared operations.
#[derive(Debug)]
pub enum VmTarget {
    /// The default micro vm
    Default,
    /// A specifically named micro vm
    Named(String),
}

impl VmTarget {
    /// The name of the target.
    pub open spec fn spec_name(&self) -> Seq<char> {
        match self {
            VmTarget::Default => "default"@,
            VmTarget::Named(name) => name@,
        }
    }

    /// Return the stable VM name for this target.
    pub fn name(&self) -> (r: &str)
        ensures
            r@ == self.spec_name(),
    {
        match self {
            VmTarget::Default => "default",
            VmTarget::Named(name) => name.as_str(),
        }
    }

    /// The target that a name stands for: the default machine goes by "default".
    pub fn from_name(name: &str) -> (r: VmTarget)
        ensures
            r is Default <==> name@ == "default"@,
            r.spec_name() == name@,
    {
        if same(name, "default") {
            VmTarget::Default
        } else {
            VmTarget::Named(name.to_owned())
        }
    }
}

/// Sanity upper bound on VM name length.
///
/// The on-disk layout uses a fixed-length hash of the name, so the length of a
/// name affects no path budget; the bound rejects obviously absurd input.
pub const MAX_VM_NAME_LENGTH: usize = 128;

/// Whether a character may stand in a VM name.
pub open spec fn is_name_char(c: char) -> bool {
    is_ascii_alnum(c) || c == '-' || c == '_'
}

/// Whether the scan of a name stops at position `i`.
pub open spec fn name_fault_at(name: Seq<char>, i: int) -> bool {
    ||| !is_name_char(name[i])
    ||| i > 0 && name[i] == '-' && name[i - 1] == '-'
}

/// The first position from `i` on at which the scan of a name stops.
pub open spec fn first_name_fault(name: Seq<char>, i: int) -> Option<int>
    decreases name.len() - i,
{
    if i >= name.len() {
        None
    } else if name_fault_at(name, i) {
        Some(i)
    } else {
        first_name_fault(name, i + 1)
    }
}

/// What is wrong with a VM name, if anything.
pub open spec fn vm_name_error(name: Seq<char>, label: Seq<char>) -> Option<Seq<char>> {
    if name.len() == 0 {
        Some(label + " cannot be empty"@)
    } else if encode_utf8(name).len() > MAX_VM_NAME_LENGTH {
        Some(
            label + " too long: "@ + decimal(encode_utf8(name).len()) + " characters (max "@
                + decimal(MAX_VM_NAME_LENGTH as nat) + ")"@,
        )
    } else if !is_ascii_alnum(name[0]) {
        Some(label + " must start with a letter or digit (got: "@ + debug_form(name) + ")"@)
    } else if name.last() == '-' {
        Some(label + " cannot end with a hyphen (got: "@ + debug_form(name) + ")"@)
    } else {
        match first_name_fault(name, 0) {
            None => None,
            Some(i) => if name[i] == '-' {
                Some(label + " cannot contain consecutive hyphens"@)
            } else if name[i] == '/' || name[i] == '\\' {
                Some(label + " cannot contain path separators"@)
            } else {
                Some(label + " contains invalid character: '"@ + seq![name[i]] + "'"@)
            },
        }
    }
}

/// Validate a persisted VM name.
pub fn validate_vm_name(name: &str, label: &str) -> (r: Result<(), String>)
    ensures
        match vm_name_error(name@, label@) {
            None => r is Ok,
            Some(reason) => r matches Err(e) && e@ == reason,
        },
{
    let chars = char_vec(name);
    if chars.len() == 0 {
        return Err(label.to_owned().concat(" cannot be empty"));
    }
    let bytes: usize = name.as_bytes().len();
    if bytes > MAX_VM_NAME_LENGTH {
        return Err(
            label.to_owned().concat(" too long: ").concat(decimal_text(bytes as u64).as_str()).concat(
                " characters (max ",
            ).concat(decimal_text(MAX_VM_NAME_LENGTH as u64).as_str()).concat(")"),
        );
    }
    if !ascii_alnum(chars[0]) {
        return Err(
            label.to_owned().concat(" must start with a letter or digit (got: ").concat(
                debug_text(name).as_str(),
            ).concat(")"),
        );
    }
    if chars[chars.len() - 1] == '-' {
        return Err(
            label.to_owned().concat(" cannot end with a hyphen (got: ").concat(
                debug_text(name).as_str(),
            ).concat(")"),
        );
    }
    let mut i: usize = 0;
    while i < chars.len()
        invariant
            i <= chars@.len(),
            chars@ == name@,
            chars@.len() > 0,
            encode_utf8(name@).len() <= MAX_VM_NAME_LENGTH,
            is_ascii_alnum(name@[0]),
            name@.last() != '-',
            first_name_fault(name@, 0) == first_name_fault(name@, i as int),
        decreases chars@.len() - i,
    {
        let c = chars[i];
        if c == '-' {
            if i > 0 && chars[i - 1] == '-' {
                return Err(label.to_owned().concat(" cannot contain consecutive hyphens"));
            }
        } else if !ascii_alnum(c) && c != '_' {
            if c == '/' || c == '\\' {
                return Err(label.to_owned().concat(" cannot contain path separators"));
            }
            let mut shown = String::new();
            shown.push(c);
            proof {
                assert(shown@ =~= seq![c]);
            }
            return Err(
                label.to_owned().concat(" contains invalid character: '").concat(
                    shown.as_str(),
                ).concat("'"),
            );
        }
        i = i + 1;
    }
    Ok(())
}

/// The shape of the names that are accepted.
pub open spec fn is_vm_name(name: Seq<char>) -> bool {
    &&& 0 < name.len() <= MAX_VM_NAME_LENGTH
    &&& forall|i: int| 0 <= i < name.len() ==> is_name_char(#[trigger] name[i])
    &&& is_ascii_alnum(name[0])
    &&& name.last() != '-'
    &&& forall|i: int| 0 < i < name.len() ==> !(name[i - 1] == '-' && #[trigger] name[i] == '-')
}

proof fn lemma_no_fault(name: Seq<char>, i: int)
    requires
        0 <= i <= name.len(),
    ensures
        first_name_fault(name, i) is None <==> (forall|j: int|
            i <= j < name.len() ==> !#[trigger] name_fault_at(name, j)),
    decreases name.len() - i,
{
    if i < name.len() && !name_fault_at(name, i) {
        lemma_no_fault(name, i + 1);
    }
}

/// A name is accepted exactly when it is non-empty, has at most
/// [`MAX_VM_NAME_LENGTH`] characters, consists of ASCII letters, digits, hyphens
/// and underscores, starts with a letter or digit, does not end with a hyphen and
/// holds no two hyphens in a row. The label plays no part.
pub proof fn vm_name_accepted_iff(name: Seq<char>, label: Seq<char>)
    ensures
        vm_name_error(name, label) is None <==> is_vm_name(name),
{
    lemma_no_fault(name, 0);
    let clean = forall|j: int| 0 <= j < name.len() ==> !#[trigger] name_fault_at(name, j);
    if clean || is_vm_name(name) {
        assert forall|i: int| 0 <= i < name.len() implies is_name_char(#[trigger] name[i]) by {
            if clean {
                assert(!name_fault_at(name, i));
            }
        }
        assert(is_ascii_chars(name)) by {
            assert forall|i: int| 0 <= i < name.len() implies 0 <= #[trigger] name[i] as nat <= 127 by {
                assert(is_name_char(name[i]));
            }
        }
        is_ascii_chars_encode_utf8(name);
        assert(encode_utf8(name).len() == name.len());
    }
    if clean {
        assert forall|i: int| 0 < i < name.len() implies !(name[i - 1] == '-' && #[trigger] name[i]
            == '-') by {
            assert(!name_fault_at(name, i));
        }
    }
    if is_vm_name(name) {
        assert forall|j: int| 0 <= j < name.len() implies !#[trigger] name_fault_at(name, j) by {
            assert(is_name_char(name[j]));
        }
    }
}

/// An accepted name holds no path separator and no dot, so it can stand for one
/// component of a path.
pub proof fn vm_name_is_one_path_component(name: Seq<char>, label: Seq<char>)
    requires
        vm_name_error(name, label) is None,
    ensures
        !name.contains('/'),
        !name.contains('\\'),
        !name.contains('.'),
        name.len() > 0,
{
    vm_name_accepted_iff(name, label);
}

} // verus!
