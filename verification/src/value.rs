//! Plain values that stand for what a script hands to the host: the settled
//! value of a response, and the loosely typed parameters of a capability call.

use vstd::prelude::*;
use vstd::string::StringExecFns;

verus! {

/// A script value, by its shape.
#[derive(Debug, PartialEq, Eq)]
pub enum Value {
    Undefined,
    Null,
    Boolean(bool),
    /// A number. Script numbers are carried as integers.
    Number(i64),
    String(String),
    Object(Object),
}

/// One named member of an [`Object`].
#[derive(Debug, PartialEq, Eq)]
pub struct Property {
    pub name: String,
    pub value: Value,
}

/// A script object: named members. Its view is the map from each name that
/// is bound to the value that it is bound to.
#[derive(Debug, PartialEq, Eq)]
pub struct Object {
    properties: Vec<Property>,
}

/// The members that a list of definitions amounts to: each name bound to
/// the value of its last definition.
spec fn members(properties: Seq<Property>) -> Map<Seq<char>, Value>
    decreases properties.len(),
{
    if properties.len() == 0 {
        Map::empty()
    } else {
        members(properties.drop_last()).insert(properties.last().name@, properties.last().value)
    }
}

/// A name that no definition from `from` on uses is bound as the
/// definitions before `from` bind it.
proof fn lemma_members_prefix(properties: Seq<Property>, from: int, name: Seq<char>)
    requires
        0 <= from <= properties.len(),
        forall|j: int| from <= j < properties.len() ==> properties[j].name@ != name,
    ensures
        members(properties).contains_key(name) == members(properties.take(from)).contains_key(
            name,
        ),
        members(properties).contains_key(name) ==> members(properties)[name] == members(
            properties.take(from),
        )[name],
    decreases properties.len() - from,
{
    if from == properties.len() {
        assert(properties.take(from) =~= properties);
    } else {
        let shorter = properties.drop_last();
        lemma_members_prefix(shorter, from, name);
        assert(shorter.take(from) =~= properties.take(from));
    }
}

/// To put another value in place of the last definition of a name is to
/// bind the name to that value.
proof fn lemma_members_replace(properties: Seq<Property>, at: int, property: Property)
    requires
        0 <= at < properties.len(),
        property.name@ == properties[at].name@,
        forall|j: int| at < j < properties.len() ==> properties[j].name@ != property.name@,
    ensures
        members(properties.update(at, property)) == members(properties).insert(
            property.name@,
            property.value,
        ),
    decreases properties.len(),
{
    let replaced = properties.update(at, property);
    let shorter = properties.drop_last();
    if at == properties.len() - 1 {
        assert(replaced.drop_last() =~= shorter);
        assert(members(replaced) =~= members(properties).insert(property.name@, property.value));
    } else {
        lemma_members_replace(shorter, at, property);
        assert(replaced.drop_last() =~= shorter.update(at, property));
        assert(replaced.last() == properties.last());
        assert(members(replaced) =~= members(properties).insert(property.name@, property.value));
    }
}

impl View for Object {
    type V = Map<Seq<char>, Value>;

    closed spec fn view(&self) -> Map<Seq<char>, Value> {
        members(self.properties@)
    }
}

impl Object {
    /// An object without members.
    pub fn new() -> (object: Object)
        ensures
            object@ == Map::<Seq<char>, Value>::empty(),
    {
        Object { properties: Vec::new() }
    }

    /// Where the last definition of `name` stands, if there is one.
    fn position(&self, name: &str) -> (found: Option<usize>)
        ensures
            match found {
                Some(at) => at < self.properties.len() && self.properties[at as int].name@ == name@
                    && forall|j: int|
                    at < j < self.properties.len() ==> self.properties[j].name@ != name@,
                None => forall|j: int|
                    0 <= j < self.properties.len() ==> self.properties[j].name@ != name@,
            },
    {
        let wanted = String::from_str(name);
        let mut i: usize = self.properties.len();
        while i > 0
            invariant
                wanted@ == name@,
                i <= self.properties.len(),
                forall|j: int| i <= j < self.properties.len() ==> self.properties[j].name@ != name@,
            decreases i,
        {
            i -= 1;
            if self.properties[i].name == wanted {
                return Some(i);
            }
        }
        None
    }

    /// Binds `name` to `value`, in place of what it was bound to.
    pub fn set(&mut self, name: &str, value: Value)
        ensures
            final(self)@ == old(self)@.insert(name@, value),
    {
        let ghost before = self.properties@;
        let property = Property { name: String::from_str(name), value };
        match self.position(name) {
            Some(at) => {
                proof {
                    lemma_members_replace(before, at as int, property);
                }
                self.properties.set(at, property);
            },
            None => {
                self.properties.push(property);
                proof {
                    assert(self.properties@.drop_last() =~= before);
                }
            },
        }
    }

    /// The value that `name` is bound to, if it is bound.
    pub fn get(&self, name: &str) -> (found: Option<&Value>)
        ensures
            match found {
                Some(value) => self@.contains_key(name@) && *value == self@[name@],
                None => !self@.contains_key(name@),
            },
    {
        match self.position(name) {
            Some(at) => {
                proof {
                    lemma_members_prefix(self.properties@, at + 1, name@);
                    assert(self.properties@.take(at + 1).drop_last() =~= self.properties@.take(
                        at as int,
                    ));
                }
                Some(&self.properties[at].value)
            },
            None => {
                proof {
                    lemma_members_prefix(self.properties@, 0, name@);
                }
                None
            },
        }
    }
}

} // verus!
