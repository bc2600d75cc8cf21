//! The variable directory of a telemetry source: which variables a frame
//! holds, where, and of what type.

use vstd::prelude::*;

verus! {

/// Element type of a telemetry variable as it lies on the wire.
#[derive(Debug, Clone, Copy, PartialEq, Eq, Structural)]
pub enum VariableType {
    /// One byte, a character.
    Char,
    /// One byte, zero or not.
    Bool,
    /// Four bytes, signed, little endian.
    Int,
    /// Four bytes of flags, little endian.
    BitField,
    /// Four bytes, IEEE 754 single precision, little endian.
    Float,
    /// Eight bytes, IEEE 754 double precision, little endian.
    Double,
}

impl VariableType {
    /// Bytes that one element of the type takes.
    pub open spec fn spec_size(self) -> nat {
        match self {
            VariableType::Char => 1,
            VariableType::Bool => 1,
            VariableType::Int => 4,
            VariableType::BitField => 4,
            VariableType::Float => 4,
            VariableType::Double => 8,
        }
    }

    /// Bytes that one element of the type takes.
    pub fn size(&self) -> (n: usize)
        ensures
            n == self.spec_size(),
    {
        match self {
            VariableType::Char => 1,
            VariableType::Bool => 1,
            VariableType::Int => 4,
            VariableType::BitField => 4,
            VariableType::Float => 4,
            VariableType::Double => 8,
        }
    }

}

/// What a schema says of one variable, as a mathematical value.
pub struct VariableLayout {
    pub name: Seq<char>,
    pub offset: nat,
    pub data_type: VariableType,
    pub count: nat,
}

/// One entry of the variable directory.
#[derive(Debug)]
pub struct RawVariableInfo {
    /// Name of the variable.
    pub name: String,
    /// Byte offset of its first element in a frame.
    pub offset: usize,
    /// Type of its elements.
    pub data_type: VariableType,
    /// Number of elements.
    pub count: usize,
}

impl View for RawVariableInfo {
    type V = VariableLayout;

    open spec fn view(&self) -> VariableLayout {
        VariableLayout {
            name: self.name@,
            offset: self.offset as nat,
            data_type: self.data_type,
            count: self.count as nat,
        }
    }
}

impl Clone for RawVariableInfo {
    fn clone(&self) -> (r: Self)
        ensures
            r == *self,
    {
        RawVariableInfo {
            name: self.name.clone(),
            offset: self.offset,
            data_type: self.data_type,
            count: self.count,
        }
    }
}

impl RawVariableInfo {
    /// An entry of the directory.
    pub fn new(name: String, offset: usize, data_type: VariableType, count: usize) -> (r: Self)
        ensures
            r.name == name,
            r.offset == offset,
            r.data_type == data_type,
            r.count == count,
    {
        RawVariableInfo { name, offset, data_type, count }
    }
}

/// The layouts of a sequence of entries.
pub open spec fn layouts_of(vars: Seq<RawVariableInfo>) -> Seq<VariableLayout> {
    vars.map_values(|v: RawVariableInfo| v@)
}

/// Whether `name` is the name of one of `vars`.
pub open spec fn has_name(vars: Seq<VariableLayout>, name: Seq<char>) -> bool {
    exists|i: int| 0 <= i < vars.len() && #[trigger] vars[i].name == name
}

/// Whether no two entries share a name.
pub open spec fn distinct_names(vars: Seq<VariableLayout>) -> bool {
    forall|i: int, j: int|
        0 <= i < vars.len() && 0 <= j < vars.len() && #[trigger] vars[i].name == #[trigger] vars[j].name
            ==> i == j
}

/// Immutable directory from variable name to layout, built once per
/// connection. The entries keep the order in which they were added.
#[derive(Debug)]
pub struct VariableSchema {
    /// The entries, no two with the same name.
    pub variables: Vec<RawVariableInfo>,
    /// Bytes in one frame.
    pub frame_size: usize,
}

impl VariableSchema {
    /// The entries as mathematical values, in order.
    pub open spec fn layouts(&self) -> Seq<VariableLayout> {
        layouts_of(self.variables@)
    }

    /// The names of the entries, in order.
    pub open spec fn names(&self) -> Seq<Seq<char>> {
        self.variables@.map_values(|v: RawVariableInfo| v.name@)
    }

    /// The invariant of a schema: no name occurs twice.
    pub open spec fn wf(&self) -> bool {
        distinct_names(self.layouts())
    }

    /// Whether the schema has a variable of that name.
    pub open spec fn has(&self, name: Seq<char>) -> bool {
        has_name(self.layouts(), name)
    }

    /// The layout that the schema gives for `name`.
    pub open spec fn spec_get(&self, name: Seq<char>) -> Option<VariableLayout> {
        lookup(self.layouts(), name)
    }

    /// A schema without variables, for frames of `frame_size` bytes.
    pub fn new(frame_size: usize) -> (r: Self)
        ensures
            r.wf(),
            r.variables@.len() == 0,
            r.frame_size == frame_size,
    {
        VariableSchema { variables: Vec::new(), frame_size }
    }

    /// Number of variables.
    pub fn len(&self) -> (n: usize)
        ensures
            n == self.variables@.len(),
    {
        self.variables.len()
    }

    /// Position of the variable called `name`.
    pub fn position(&self, name: &str) -> (r: Option<usize>)
        ensures
            match r {
                Some(i) => i < self.variables@.len() && self.variables@[i as int].name@ == name@
                    && forall|j: int| 0 <= j < i ==> self.variables@[j].name@ != name@,
                None => !self.has(name@),
            },
    {
        let wanted = name.to_owned();
        let mut i: usize = 0;
        while i < self.variables.len()
            invariant
                i <= self.variables@.len(),
                wanted@ == name@,
                forall|j: int| 0 <= j < i ==> self.variables@[j].name@ != name@,
            decreases self.variables@.len() - i,
        {
            if self.variables[i].name == wanted {
                return Some(i);
            }
            i += 1;
        }
        proof {
            assert forall|j: int| 0 <= j < self.layouts().len() implies self.layouts()[j].name
                != name@ by {
                assert(self.layouts()[j] == self.variables@[j]@);
            }
        }
        None
    }

    /// Looks a variable up by name.
    pub fn get_variable(&self, name: &str) -> (r: Option<&RawVariableInfo>)
        requires
            self.wf(),
        ensures
            match r {
                Some(v) => self.spec_get(name@) == Some(v@),
                None => self.spec_get(name@).is_none(),
            },
    {
        match self.position(name) {
            Some(i) => {
                proof {
                    self.lemma_get_at(i as int);
                }
                Some(&self.variables[i])
            },
            None => None,
        }
    }

    /// Whether a variable of that name exists.
    pub fn contains_key(&self, name: &str) -> (r: bool)
        ensures
            r == self.has(name@),
    {
        match self.position(name) {
            Some(i) => {
                proof {
                    assert(self.layouts()[i as int].name == name@);
                }
                true
            },
            None => false,
        }
    }

    /// Adds a variable, or replaces the one of the same name.
    pub fn insert(&mut self, info: RawVariableInfo)
        requires
            old(self).wf(),
        ensures
            final(self).wf(),
            final(self).frame_size == old(self).frame_size,
            final(self).spec_get(info.name@) == Some(info@),
            forall|n: Seq<char>| n != info.name@ ==> final(self).spec_get(n) == old(self).spec_get(n),
            old(self).has(info.name@) ==> final(self).names() == old(self).names(),
            !old(self).has(info.name@) ==> final(self).names() == old(self).names().push(info.name@)
                && final(self).layouts() == old(self).layouts().push(info@),
    {
        let ghost before = *self;
        let pos = self.position(info.name.as_str());
        match pos {
            Some(i) => {
                self.variables[i] = info;
                proof {
                    let after = *self;
                    assert(after.layouts() =~= before.layouts().update(i as int, info@));
                    assert(before.layouts()[i as int] == before.variables@[i as int]@);
                    assert(after.names() =~= before.names());
                    assert(after.layouts()[i as int].name == info.name@);
                    lemma_update_same_name(before.layouts(), i as int, info@);
                    after.lemma_get_at(i as int);
                    assert forall|n: Seq<char>| n != info.name@ implies after.spec_get(n)
                        == before.spec_get(n) by {
                        lemma_update_other(before.layouts(), i as int, info@, n);
                    }
                }
            },
            None => {
                self.variables.push(info);
                proof {
                    let after = *self;
                    assert(after.layouts() =~= before.layouts().push(info@));
                    assert(after.names() =~= before.names().push(info.name@));
                    lemma_push_new_name(before.layouts(), info@);
                    after.lemma_get_at(before.layouts().len() as int);
                    assert forall|n: Seq<char>| n != info.name@ implies after.spec_get(n)
                        == before.spec_get(n) by {
                        lemma_push_other(before.layouts(), info@, n);
                    }
                }
            },
        }
    }

    /// The names of all variables, in order.
    pub fn variable_names(&self) -> (r: Vec<String>)
        ensures
            r@.map_values(|s: String| s@) == self.names(),
    {
        let mut out: Vec<String> = Vec::new();
        let mut i: usize = 0;
        while i < self.variables.len()
            invariant
                i <= self.variables@.len(),
                out@.len() == i,
                forall|j: int| 0 <= j < i ==> out@[j]@ == self.variables@[j].name@,
            decreases self.variables@.len() - i,
        {
            out.push(self.variables[i].name.clone());
            i += 1;
        }
        assert(out@.map_values(|s: String| s@) =~= self.names());
        out
    }

    /// In a well-formed schema the entry at `i` is what a lookup of its name gives.
    pub proof fn lemma_get_at(&self, i: int)
        requires
            self.wf(),
            0 <= i < self.variables@.len(),
        ensures
            self.has(self.variables@[i].name@),
            self.spec_get(self.variables@[i].name@) == Some(self.variables@[i]@),
    {
        assert(self.layouts()[i] == self.variables@[i]@);
        lemma_lookup_at(self.layouts(), i);
    }
}

/// Lookup by name in a sequence of layouts.
pub open spec fn lookup(vars: Seq<VariableLayout>, name: Seq<char>) -> Option<VariableLayout> {
    if has_name(vars, name) {
        Some(vars[choose|i: int| 0 <= i < vars.len() && #[trigger] vars[i].name == name])
    } else {
        None
    }
}

proof fn lemma_lookup_at(vars: Seq<VariableLayout>, i: int)
    requires
        distinct_names(vars),
        0 <= i < vars.len(),
    ensures
        lookup(vars, vars[i].name) == Some(vars[i]),
{
    let name = vars[i].name;
    assert(vars[i].name == name);
    let k = choose|k: int| 0 <= k < vars.len() && #[trigger] vars[k].name == name;
    assert(k == i);
}

proof fn lemma_update_same_name(vars: Seq<VariableLayout>, i: int, v: VariableLayout)
    requires
        distinct_names(vars),
        0 <= i < vars.len(),
        vars[i].name == v.name,
    ensures
        distinct_names(vars.update(i, v)),
{
    let after = vars.update(i, v);
    assert forall|a: int, b: int|
        0 <= a < after.len() && 0 <= b < after.len() && #[trigger] after[a].name
            == #[trigger] after[b].name implies a == b by {
        assert(after[a].name == vars[a].name);
        assert(after[b].name == vars[b].name);
    }
}

proof fn lemma_update_other(vars: Seq<VariableLayout>, i: int, v: VariableLayout, n: Seq<char>)
    requires
        distinct_names(vars),
        0 <= i < vars.len(),
        vars[i].name == v.name,
        n != v.name,
    ensures
        lookup(vars.update(i, v), n) == lookup(vars, n),
{
    let after = vars.update(i, v);
    lemma_update_same_name(vars, i, v);
    if has_name(vars, n) {
        let k = choose|k: int| 0 <= k < vars.len() && #[trigger] vars[k].name == n;
        assert(k != i);
        assert(after[k].name == n);
        lemma_lookup_at(vars, k);
        lemma_lookup_at(after, k);
    } else {
        if has_name(after, n) {
            let k = choose|k: int| 0 <= k < after.len() && #[trigger] after[k].name == n;
            assert(vars[k].name == n);
        }
    }
}

proof fn lemma_push_new_name(vars: Seq<VariableLayout>, v: VariableLayout)
    requires
        distinct_names(vars),
        !has_name(vars, v.name),
    ensures
        distinct_names(vars.push(v)),
{
    let after = vars.push(v);
    assert forall|a: int, b: int|
        0 <= a < after.len() && 0 <= b < after.len() && #[trigger] after[a].name
            == #[trigger] after[b].name implies a == b by {
        if a < vars.len() && b < vars.len() {
            assert(vars[a].name == vars[b].name);
        } else if a < vars.len() {
            assert(vars[a].name == v.name);
        } else if b < vars.len() {
            assert(vars[b].name == v.name);
        }
    }
}

proof fn lemma_push_other(vars: Seq<VariableLayout>, v: VariableLayout, n: Seq<char>)
    requires
        distinct_names(vars),
        !has_name(vars, v.name),
        n != v.name,
    ensures
        lookup(vars.push(v), n) == lookup(vars, n),
{
    let after = vars.push(v);
    lemma_push_new_name(vars, v);
    if has_name(vars, n) {
        let k = choose|k: int| 0 <= k < vars.len() && #[trigger] vars[k].name == n;
        assert(after[k].name == n);
        lemma_lookup_at(vars, k);
        lemma_lookup_at(after, k);
    } else {
        if has_name(after, n) {
            let k = choose|k: int| 0 <= k < after.len() && #[trigger] after[k].name == n;
            assert(k < vars.len());
            assert(vars[k].name == n);
        }
    }
}

} // verus!
