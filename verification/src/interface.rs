//! The protocol compiler: from the definition of an interface to the table
//! that a dispatcher and a proxy work from.

use vstd::prelude::*;
use vstd::string::{StrSliceExecFns, StringExecFns};

verus! {

/// The suffix that the name of every interface ends with.
pub open spec fn protocol_suffix() -> Seq<char> {
    "Protocol"@
}

/// `s` without any trailing repetition of `suffix`.
pub open spec fn trimmed(s: Seq<char>, suffix: Seq<char>) -> Seq<char>
    decreases s.len(),
{
    if suffix.len() > 0 && suffix.is_suffix_of(s) {
        trimmed(s.subrange(0, s.len() - suffix.len()), suffix)
    } else {
        s
    }
}

/// Whether `s` ends with `suffix`.
fn ends_with(s: &str, suffix: &str) -> (found: bool)
    ensures
        found == suffix@.is_suffix_of(s@),
{
    let n = s.unicode_len();
    let m = suffix.unicode_len();
    if m > n {
        false
    } else {
        let tail = s.substring_char(n - m, n);
        tail.to_owned() == suffix.to_owned()
    }
}

/// `s` without any trailing repetition of `suffix`.
fn trim_end<'a>(s: &'a str, suffix: &str) -> (rest: &'a str)
    requires
        suffix@.len() > 0,
    ensures
        rest@ == trimmed(s@, suffix@),
{
    let m = suffix.unicode_len();
    let mut rest = s;
    let mut n = s.unicode_len();
    while ends_with(rest, suffix)
        invariant
            m == suffix@.len(),
            m > 0,
            n == rest@.len(),
            trimmed(rest@, suffix@) == trimmed(s@, suffix@),
        decreases n,
    {
        rest = rest.substring_char(0, n - m);
        n = n - m;
    }
    rest
}

/// A parameter of a method: its name and the name of its type.
#[derive(Clone, Debug, PartialEq, Eq)]
pub struct Param {
    pub name: String,
    pub ty: String,
}

/// What a method is declared to return.
#[derive(Clone, Debug, PartialEq, Eq)]
pub enum ReturnType {
    /// Nothing.
    Unit,
    /// A value of the named type.
    Plain(String),
    /// A success of the first named type or a failure of the second.
    Fallible(String, String),
}

/// A method of an interface. The receiver is implied and not among the
/// parameters.
#[derive(Clone, Debug, PartialEq, Eq)]
pub struct Method {
    pub name: String,
    pub params: Vec<Param>,
    pub returns: ReturnType,
}

/// A member of an interface definition.
#[derive(Clone, Debug, PartialEq, Eq)]
pub enum Member {
    Method(Method),
    /// An associated constant, by its name.
    Constant(String),
    /// An associated type, by its name.
    Type(String),
}

/// The definition of an interface: its name and its members in the order
/// they are declared in.
#[derive(Clone, Debug, PartialEq, Eq)]
pub struct InterfaceDef {
    pub name: String,
    pub members: Vec<Member>,
}

/// Why no protocol can be derived from a definition.
#[derive(Clone, Copy, Debug, PartialEq, Eq)]
pub enum DeriveError {
    /// The name of the interface does not end with `Protocol`.
    Naming,
    /// The member at this place is not a method.
    NotAMethod(usize),
}

/// What a dispatcher and a proxy know of one method.
#[derive(Clone, Debug, PartialEq, Eq)]
pub struct MethodEntry {
    /// The name that calls are matched against.
    pub name: String,
    /// How many positional arguments the method takes.
    pub arity: usize,
    /// Whether the method has a failure arm of its own.
    pub fallible: bool,
}

/// What a `MethodEntry` stands for.
pub struct MethodEntryView {
    pub name: Seq<char>,
    pub arity: nat,
    pub fallible: bool,
}

impl View for MethodEntry {
    type V = MethodEntryView;

    open spec fn view(&self) -> MethodEntryView {
        MethodEntryView { name: self.name@, arity: self.arity as nat, fallible: self.fallible }
    }
}

/// A compiled interface: the names of what is generated from it and its
/// methods in declaration order.
#[derive(Clone, Debug, PartialEq, Eq)]
pub struct Protocol {
    /// The name of the dispatcher.
    pub service_name: String,
    /// The name of the proxy.
    pub client_name: String,
    /// The name of the proxy's error type.
    pub error_name: String,
    pub methods: Vec<MethodEntry>,
}

/// What a `Protocol` stands for.
pub struct ProtocolView {
    pub service_name: Seq<char>,
    pub client_name: Seq<char>,
    pub error_name: Seq<char>,
    pub methods: Seq<MethodEntryView>,
}

impl View for Protocol {
    type V = ProtocolView;

    open spec fn view(&self) -> ProtocolView {
        ProtocolView {
            service_name: self.service_name@,
            client_name: self.client_name@,
            error_name: self.error_name@,
            methods: Seq::new(self.methods@.len(), |i: int| self.methods@[i]@),
        }
    }
}

impl ProtocolView {
    /// Whether some method has the name `name`.
    pub open spec fn has_method(self, name: Seq<char>) -> bool {
        exists|i: int| 0 <= i < self.methods.len() && (#[trigger] self.methods[i]).name == name
    }

    /// Whether the method at `i` is the first that has the name `name`.
    pub open spec fn resolves(self, name: Seq<char>, i: int) -> bool {
        &&& 0 <= i < self.methods.len()
        &&& self.methods[i].name == name
        &&& forall|j: int| 0 <= j < i ==> (#[trigger] self.methods[j]).name != name
    }

    /// Whether no two methods have the same name.
    pub open spec fn has_unique_names(self) -> bool {
        forall|i: int, j: int|
            0 <= i < j < self.methods.len() ==> (#[trigger] self.methods[i]).name != (
            #[trigger] self.methods[j]).name
    }
}

impl Method {
    /// The table entry of this method: its name, the number of its
    /// parameters, and whether it is declared with a failure arm.
    pub open spec fn entry(&self) -> MethodEntryView {
        MethodEntryView {
            name: self.name@,
            arity: self.params@.len(),
            fallible: self.returns is Fallible,
        }
    }
}

impl InterfaceDef {
    /// Whether the name follows the convention: it ends with `Protocol`.
    pub open spec fn well_named(&self) -> bool {
        protocol_suffix().is_suffix_of(self.name@)
    }

    /// Whether the member at `i` is the first that is not a method.
    pub open spec fn first_stray(&self, i: int) -> bool {
        &&& 0 <= i < self.members@.len()
        &&& !(self.members@[i] is Method)
        &&& forall|j: int| 0 <= j < i ==> (#[trigger] self.members@[j]) is Method
    }

    /// Whether every member is a method.
    pub open spec fn all_methods(&self) -> bool {
        forall|i: int| 0 <= i < self.members@.len() ==> (#[trigger] self.members@[i]) is Method
    }

    /// The name with every trailing `Protocol` taken off.
    pub open spec fn base_name(&self) -> Seq<char> {
        trimmed(self.name@, protocol_suffix())
    }

    /// The protocol that a definition with a good name and only methods
    /// compiles to.
    pub open spec fn compiled(&self) -> ProtocolView {
        ProtocolView {
            service_name: self.base_name() + "Service"@,
            client_name: self.base_name() + "Client"@,
            error_name: self.base_name() + "Error"@,
            methods: Seq::new(
                self.members@.len(),
                |i: int| self.members@[i]->Method_0.entry(),
            ),
        }
    }
}

/// Compiles the definition of an interface.
///
/// A definition is refused if its name does not end with `Protocol`, and
/// otherwise if one of its members is not a method; the first such member is
/// named. Any other definition compiles: each method gives one entry, in
/// declaration order, with the method's name, the number of its parameters
/// and the mark of a declared failure arm.
pub fn nanorpc_derive(def: &InterfaceDef) -> (r: Result<Protocol, DeriveError>)
    ensures
        match r {
            Ok(protocol) => def.well_named() && def.all_methods() && protocol@ == def.compiled(),
            Err(DeriveError::Naming) => !def.well_named(),
            Err(DeriveError::NotAMethod(i)) => def.well_named() && def.first_stray(i as int),
        },
{
    proof {
        reveal_strlit("Protocol");
    }
    if !ends_with(def.name.as_str(), "Protocol") {
        return Err(DeriveError::Naming);
    }
    let base = trim_end(def.name.as_str(), "Protocol");
    let mut methods: Vec<MethodEntry> = Vec::new();
    let mut i: usize = 0;
    while i < def.members.len()
        invariant
            def.well_named(),
            i <= def.members@.len(),
            methods@.len() == i,
            forall|j: int| 0 <= j < i ==> (#[trigger] def.members@[j]) is Method,
            forall|j: int|
                0 <= j < i ==> (#[trigger] methods@[j])@ == def.members@[j]->Method_0.entry(),
        decreases def.members@.len() - i,
    {
        match &def.members[i] {
            Member::Method(method) => {
                let fallible = match method.returns {
                    ReturnType::Fallible(_, _) => true,
                    _ => false,
                };
                methods.push(
                    MethodEntry { name: method.name.clone(), arity: method.params.len(), fallible },
                );
            },
            _ => {
                return Err(DeriveError::NotAMethod(i));
            },
        }
        i += 1;
    }
    let protocol = Protocol {
        service_name: String::from_str(base).concat("Service"),
        client_name: String::from_str(base).concat("Client"),
        error_name: String::from_str(base).concat("Error"),
        methods,
    };
    assert(protocol@.methods =~= def.compiled().methods);
    Ok(protocol)
}

impl DeriveError {
    /// The complaint in words.
    pub fn message(&self) -> (text: String)
        ensures
            text@ == match *self {
                DeriveError::Naming => "trait must end with the word \"Protocol\""@,
                DeriveError::NotAMethod(_) =>
                    "does not support things other than methods in the trait definition"@,
            },
    {
        match self {
            DeriveError::Naming => "trait must end with the word \"Protocol\"".to_owned(),
            DeriveError::NotAMethod(_) =>
                "does not support things other than methods in the trait definition".to_owned(),
        }
    }
}

impl Protocol {
    /// The place of the method that a call of `name` goes to: the first
    /// method of that name, if there is one.
    pub fn lookup(&self, name: &str) -> (found: Option<usize>)
        ensures
            match found {
                Some(i) => self@.resolves(name@, i as int),
                None => !self@.has_method(name@),
            },
    {
        let wanted = name.to_owned();
        let mut i: usize = 0;
        while i < self.methods.len()
            invariant
                i <= self.methods@.len(),
                wanted@ == name@,
                forall|j: int| 0 <= j < i ==> (#[trigger] self@.methods[j]).name != name@,
            decreases self.methods@.len() - i,
        {
            if self.methods[i].name == wanted {
                assert(self@.methods[i as int].name == name@);
                return Some(i);
            }
            i += 1;
        }
        None
    }
}

} // verus!
