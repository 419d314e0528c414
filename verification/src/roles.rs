//! The role schema: the table that gives each named attribute of a row the
//! small integer by which the view asks for it.

use vstd::prelude::*;
use vstd::string::StringSliceAdditionalSpecFns;
use vstd::utf8::encode_utf8_decode_utf8;

verus! {

/// The identifier of the first declared role. Identifiers below it are
/// reserved for the roles that the view framework defines itself.
pub const START_ROLE: i32 = 0x0100;

/// The largest number of roles whose identifiers still fit the view's integers.
pub const MAX_ROLES: usize = 0x7fff_ff00;

/// The identifier of the role declared at `column`.
pub open spec fn role_of_column(column: int) -> int {
    START_ROLE + column
}

/// The position, within a row, of the cell that `role` addresses.
pub open spec fn column_of_role(role: int) -> int {
    role - START_ROLE
}

/// Whether `role` is the identifier of one of `width` declared roles.
pub open spec fn role_in_schema(width: nat, role: int) -> bool {
    START_ROLE <= role < START_ROLE + width
}

/// Whether `names` can serve as a schema: every identifier fits, and no name
/// is declared twice.
pub open spec fn names_valid(names: Seq<Seq<char>>) -> bool {
    &&& names.len() <= MAX_ROLES
    &&& forall|i: int, j: int| 0 <= i < j < names.len() ==> names[i] != names[j]
}

/// The identifier of the role called `name` in the schema `names`, if it
/// declares one.
pub open spec fn role_named(names: Seq<Seq<char>>, name: Seq<char>) -> Option<int> {
    if names.contains(name) {
        Some(role_of_column(names.index_of(name)))
    } else {
        None
    }
}

/// In a valid schema the position of a name is the only one that holds it.
pub proof fn lemma_role_named(names: Seq<Seq<char>>, column: int)
    requires
        names_valid(names),
        0 <= column < names.len(),
    ensures
        role_named(names, names[column]) == Some(role_of_column(column)),
{
    let found = names.index_of(names[column]);
    assert(names.contains(names[column]));
    if found < column {
        assert(names[found] != names[column]);
    } else if column < found {
        assert(names[column] != names[found]);
    }
}

/// The texts of a sequence of string slices.
pub open spec fn texts_of_strs(names: Seq<&str>) -> Seq<Seq<char>> {
    Seq::new(names.len(), |i: int| names[i]@)
}

/// The texts of a sequence of strings.
pub open spec fn texts_of_strings(names: Seq<String>) -> Seq<Seq<char>> {
    Seq::new(names.len(), |i: int| names[i]@)
}

/// Whether `entries` is the schema `names` as the view receives it: each
/// name with its identifier, counted up from `START_ROLE` in declaration
/// order.
pub open spec fn projection_matches(entries: Seq<(i32, String)>, names: Seq<Seq<char>>) -> bool {
    &&& entries.len() == names.len()
    &&& forall|i: int|
        0 <= i < entries.len() ==> (#[trigger] entries[i]).0 == role_of_column(i) && entries[i].1@
            == names[i]
}

/// Whether two string slices hold the same text.
pub fn same_text(a: &str, b: &str) -> (same: bool)
    ensures
        same == (a@ == b@),
{
    let x = a.as_bytes();
    let y = b.as_bytes();
    if x.len() != y.len() {
        return false;
    }
    let mut i: usize = 0;
    while i < x.len()
        invariant
            i <= x.len(),
            x.len() == y.len(),
            x@ == a.spec_bytes(),
            y@ == b.spec_bytes(),
            forall|k: int| 0 <= k < i ==> x@[k] == y@[k],
        decreases x.len() - i,
    {
        if x[i] != y[i] {
            return false;
        }
        i += 1;
    }
    proof {
        assert(x@ =~= y@);
        encode_utf8_decode_utf8(a@);
        encode_utf8_decode_utf8(b@);
    }
    true
}

/// An ordered table of role names. The role at position `i` has the
/// identifier `START_ROLE + i`; it never changes once the schema is built.
#[derive(Debug)]
pub struct RoleSchema {
    names: Vec<String>,
}

impl View for RoleSchema {
    type V = Seq<Seq<char>>;

    closed spec fn view(&self) -> Seq<Seq<char>> {
        texts_of_strings(self.names@)
    }
}

impl RoleSchema {
    /// The schema's invariant: its names are distinct and their identifiers fit.
    pub open spec fn wf(&self) -> bool {
        names_valid(self@)
    }

    /// Builds the schema of `names`, or nothing where a name repeats or there
    /// are too many.
    pub fn from_names(names: Vec<String>) -> (schema: Option<RoleSchema>)
        ensures
            schema is Some <==> names_valid(texts_of_strings(names@)),
            schema is Some ==> schema.unwrap().wf() && schema.unwrap()@ == texts_of_strings(names@),
    {
        let n = names.len();
        if n > MAX_ROLES {
            return None;
        }
        let ghost texts = texts_of_strings(names@);
        let mut j: usize = 0;
        while j < n
            invariant
                j <= n,
                n == names.len(),
                texts == texts_of_strings(names@),
                forall|a: int, b: int| 0 <= a < b < j ==> texts[a] != texts[b],
            decreases n - j,
        {
            let mut i: usize = 0;
            while i < j
                invariant
                    i <= j < n,
                    n == names.len(),
                    texts == texts_of_strings(names@),
                    forall|a: int| 0 <= a < i ==> texts[a] != texts[j as int],
                decreases j - i,
            {
                if same_text(names[i].as_str(), names[j].as_str()) {
                    assert(texts[i as int] == texts[j as int]);
                    return None;
                }
                i += 1;
            }
            j += 1;
        }
        Some(RoleSchema { names })
    }

    /// Builds the schema of `names`, or nothing where a name repeats or there
    /// are too many.
    pub fn new(names: &[&str]) -> (schema: Option<RoleSchema>)
        ensures
            schema is Some <==> names_valid(texts_of_strs(names@)),
            schema is Some ==> schema.unwrap().wf() && schema.unwrap()@ == texts_of_strs(names@),
    {
        let mut owned: Vec<String> = Vec::new();
        let mut i: usize = 0;
        while i < names.len()
            invariant
                i <= names.len(),
                owned.len() == i,
                forall|k: int| 0 <= k < i ==> owned@[k]@ == names@[k]@,
            decreases names.len() - i,
        {
            owned.push(names[i].to_owned());
            i += 1;
        }
        assert(texts_of_strings(owned@) =~= texts_of_strs(names@));
        RoleSchema::from_names(owned)
    }

    /// The number of declared roles.
    pub fn len(&self) -> (n: usize)
        ensures
            n == self@.len(),
    {
        self.names.len()
    }

    /// The names, in declaration order.
    pub fn names(&self) -> (names: Vec<String>)
        ensures
            texts_of_strings(names@) == self@,
    {
        let mut names: Vec<String> = Vec::new();
        let mut i: usize = 0;
        while i < self.names.len()
            invariant
                i <= self.names.len(),
                names@.len() == i,
                forall|k: int| 0 <= k < i ==> (#[trigger] names@[k])@ == self@[k],
            decreases self.names.len() - i,
        {
            names.push(self.names[i].clone());
            i += 1;
        }
        assert(texts_of_strings(names@) =~= self@);
        names
    }

    /// The position within a row that `role` addresses, where the schema
    /// declares that role.
    pub fn column_of(&self, role: i32) -> (column: Option<usize>)
        ensures
            column is Some <==> role_in_schema(self@.len(), role as int),
            column is Some ==> column.unwrap() == column_of_role(role as int),
    {
        if role < START_ROLE {
            return None;
        }
        let column = (role - START_ROLE) as usize;
        if column < self.names.len() {
            Some(column)
        } else {
            None
        }
    }

    /// The identifier of the role called `name`, where the schema declares one.
    pub fn role_of(&self, name: &str) -> (role: Option<i32>)
        requires
            self.wf(),
        ensures
            match role {
                Some(r) => role_named(self@, name@) == Some(r as int),
                None => role_named(self@, name@) is None,
            },
    {
        let mut i: usize = 0;
        while i < self.names.len()
            invariant
                i <= self.names.len(),
                self.wf(),
                forall|k: int| 0 <= k < i ==> self@[k] != name@,
            decreases self.names.len() - i,
        {
            if same_text(self.names[i].as_str(), name) {
                proof {
                    assert(self@[i as int] == name@);
                    lemma_role_named(self@, i as int);
                }
                return Some(START_ROLE + i as i32);
            }
            i += 1;
        }
        None
    }

    /// The name of `role`, where the schema declares that role.
    pub fn name_of(&self, role: i32) -> (name: Option<&str>)
        ensures
            name is Some <==> role_in_schema(self@.len(), role as int),
            name is Some ==> name.unwrap()@ == self@[column_of_role(role as int)],
    {
        match self.column_of(role) {
            Some(column) => Some(self.names[column].as_str()),
            None => None,
        }
    }

    /// The schema as the view receives it: each name with its identifier, in
    /// declaration order.
    pub fn role_names(&self) -> (entries: Vec<(i32, String)>)
        requires
            self.wf(),
        ensures
            projection_matches(entries@, self@),
    {
        let mut entries: Vec<(i32, String)> = Vec::new();
        let mut i: usize = 0;
        while i < self.names.len()
            invariant
                i <= self.names.len(),
                self.wf(),
                entries@.len() == i,
                forall|k: int| 0 <= k < i ==> (#[trigger] entries@[k]).0 == role_of_column(k)
                    && entries@[k].1@ == self@[k],
            decreases self.names.len() - i,
        {
            entries.push((START_ROLE + i as i32, self.names[i].clone()));
            i += 1;
        }
        entries
    }
}

} // verus!
