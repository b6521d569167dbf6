//! The values of the configuration script, as far as the configuration reads
//! them: what kind each is, and what the script's runtime converts it to.
use vstd::prelude::*;
use crate::float::{F32, F64};
use crate::text::same;

verus! {

/// What a value is.
#[derive(Debug, PartialEq, Eq)]
pub enum LuaKind {
    Nil,
    Boolean(bool),
    Integer(i64),
    Number,
    Text,
    Table(LuaTable),
    /// A function, by the handle that the runtime keeps it under.
    Function(u64),
    Other,
}

/// A value of the script. Beside its kind stand the conversions that the
/// runtime offers, each only where it succeeds.
#[derive(Debug, PartialEq, Eq)]
pub struct LuaValue {
    pub kind: LuaKind,
    /// As a text; a number is written out.
    pub text: Option<String>,
    pub signed: Option<i32>,
    pub byte: Option<u8>,
    pub word: Option<u32>,
    pub size: Option<usize>,
    pub double: Option<F64>,
    pub single: Option<F32>,
    /// How the value is shown in messages.
    pub shown: String,
}

/// An entry of a table.
#[derive(Debug, PartialEq, Eq)]
pub struct LuaPair {
    /// The key, where it is a text.
    pub name: Option<String>,
    /// The key as a text, where it can be converted to one.
    pub key: Option<String>,
    pub value: LuaValue,
}

/// A table: its entries in the order in which the runtime walks them, and the
/// values at 1, 2, 3 and so on, up to the first that is missing.
#[derive(Debug, PartialEq, Eq)]
pub struct LuaTable {
    pub pairs: Vec<LuaPair>,
    pub items: Vec<LuaValue>,
}

impl LuaKind {
    /// Everything but nil and false counts as true.
    pub open spec fn truth(self) -> bool {
        match self {
            LuaKind::Nil => false,
            LuaKind::Boolean(b) => b,
            _ => true,
        }
    }
}

/// The value under a name in the entries from `from` on.
pub open spec fn found(pairs: Seq<LuaPair>, name: Seq<char>, from: int) -> Option<LuaValue>
    decreases pairs.len() - from,
{
    if from < 0 || from >= pairs.len() {
        None
    } else if pairs[from].name is Some && pairs[from].name->0@ == name {
        Some(pairs[from].value)
    } else {
        found(pairs, name, from + 1)
    }
}

impl LuaTable {
    /// The value under a name.
    pub open spec fn at(self, name: Seq<char>) -> Option<LuaValue> {
        found(self.pairs@, name, 0)
    }

    /// The table under a name, if a table is there.
    pub open spec fn table(self, name: Seq<char>) -> Option<LuaTable> {
        match self.at(name) {
            Some(v) => match v.kind {
                LuaKind::Table(t) => Some(t),
                _ => None,
            },
            None => None,
        }
    }

    /// The function under a name, if a function is there.
    pub open spec fn function(self, name: Seq<char>) -> Option<u64> {
        match self.at(name) {
            Some(v) => match v.kind {
                LuaKind::Function(h) => Some(h),
                _ => None,
            },
            None => None,
        }
    }

    /// Whether the value under a name counts as true; a missing one does not.
    pub open spec fn flag(self, name: Seq<char>) -> bool {
        match self.at(name) {
            Some(v) => v.kind.truth(),
            None => false,
        }
    }

    /// Whether there is anything but nil under a name.
    pub open spec fn present(self, name: Seq<char>) -> bool {
        match self.at(name) {
            Some(v) => !(v.kind is Nil),
            None => false,
        }
    }

    pub open spec fn text(self, name: Seq<char>) -> Option<String> {
        match self.at(name) {
            Some(v) => v.text,
            None => None,
        }
    }

    pub open spec fn signed(self, name: Seq<char>) -> Option<i32> {
        match self.at(name) {
            Some(v) => v.signed,
            None => None,
        }
    }

    pub open spec fn byte(self, name: Seq<char>) -> Option<u8> {
        match self.at(name) {
            Some(v) => v.byte,
            None => None,
        }
    }

    pub open spec fn word(self, name: Seq<char>) -> Option<u32> {
        match self.at(name) {
            Some(v) => v.word,
            None => None,
        }
    }

    pub open spec fn size(self, name: Seq<char>) -> Option<usize> {
        match self.at(name) {
            Some(v) => v.size,
            None => None,
        }
    }

    pub open spec fn double(self, name: Seq<char>) -> Option<F64> {
        match self.at(name) {
            Some(v) => v.double,
            None => None,
        }
    }

    pub open spec fn single(self, name: Seq<char>) -> Option<F32> {
        match self.at(name) {
            Some(v) => v.single,
            None => None,
        }
    }

    /// The value under a name.
    pub fn get(&self, name: &str) -> (r: Option<&LuaValue>)
        ensures
            match r {
                Some(v) => self.at(name@) == Some(*v),
                None => self.at(name@) is None,
            },
    {
        let mut i: usize = 0;
        while i < self.pairs.len()
            invariant
                i <= self.pairs@.len(),
                self.at(name@) == found(self.pairs@, name@, i as int),
            decreases self.pairs@.len() - i,
        {
            match &self.pairs[i].name {
                Some(n) => {
                    if same(n, name) {
                        return Some(&self.pairs[i].value);
                    }
                },
                None => {},
            }
            i = i + 1;
        }
        None
    }

    /// The table under a name, if a table is there.
    pub fn get_table(&self, name: &str) -> (r: Option<&LuaTable>)
        ensures
            match r {
                Some(t) => self.table(name@) == Some(*t),
                None => self.table(name@) is None,
            },
    {
        match self.get(name) {
            Some(v) => match &v.kind {
                LuaKind::Table(t) => Some(t),
                _ => None,
            },
            None => None,
        }
    }

    /// The function under a name, if a function is there.
    pub fn get_function(&self, name: &str) -> (r: Option<u64>)
        ensures
            r == self.function(name@),
    {
        match self.get(name) {
            Some(v) => match &v.kind {
                LuaKind::Function(h) => Some(*h),
                _ => None,
            },
            None => None,
        }
    }

    /// Whether the value under a name counts as true; a missing one does not.
    pub fn get_flag(&self, name: &str) -> (r: bool)
        ensures
            r == self.flag(name@),
    {
        match self.get(name) {
            Some(v) => match &v.kind {
                LuaKind::Nil => false,
                LuaKind::Boolean(b) => *b,
                _ => true,
            },
            None => false,
        }
    }

    /// Whether there is anything but nil under a name.
    pub fn has(&self, name: &str) -> (r: bool)
        ensures
            r == self.present(name@),
    {
        match self.get(name) {
            Some(v) => match &v.kind {
                LuaKind::Nil => false,
                _ => true,
            },
            None => false,
        }
    }

    pub fn get_text(&self, name: &str) -> (r: Option<String>)
        ensures
            r == self.text(name@),
    {
        match self.get(name) {
            Some(v) => match &v.text {
                Some(s) => Some(s.clone()),
                None => None,
            },
            None => None,
        }
    }

    pub fn get_signed(&self, name: &str) -> (r: Option<i32>)
        ensures
            r == self.signed(name@),
    {
        match self.get(name) {
            Some(v) => v.signed,
            None => None,
        }
    }

    pub fn get_byte(&self, name: &str) -> (r: Option<u8>)
        ensures
            r == self.byte(name@),
    {
        match self.get(name) {
            Some(v) => v.byte,
            None => None,
        }
    }

    pub fn get_word(&self, name: &str) -> (r: Option<u32>)
        ensures
            r == self.word(name@),
    {
        match self.get(name) {
            Some(v) => v.word,
            None => None,
        }
    }

    pub fn get_size(&self, name: &str) -> (r: Option<usize>)
        ensures
            r == self.size(name@),
    {
        match self.get(name) {
            Some(v) => v.size,
            None => None,
        }
    }

    pub fn get_double(&self, name: &str) -> (r: Option<F64>)
        ensures
            r == self.double(name@),
    {
        match self.get(name) {
            Some(v) => v.double,
            None => None,
        }
    }

    pub fn get_single(&self, name: &str) -> (r: Option<F32>)
        ensures
            r == self.single(name@),
    {
        match self.get(name) {
            Some(v) => v.single,
            None => None,
        }
    }
}

/// What is wrong with the configuration.
#[derive(Debug, PartialEq, Eq)]
pub enum ConfigError {
    /// The value under this name is missing or cannot be converted.
    Wrong { name: String },
    /// Anything else, in words.
    Message { text: String },
}

/// What is wrong with the configuration, as contracts speak of it.
pub enum Fault {
    Wrong(Seq<char>),
    Message(Seq<char>),
}

impl ConfigError {
    pub open spec fn view(self) -> Fault {
        match self {
            ConfigError::Wrong { name } => Fault::Wrong(name@),
            ConfigError::Message { text } => Fault::Message(text@),
        }
    }

    pub fn wrong(name: &str) -> (e: ConfigError)
        ensures
            e@ == Fault::Wrong(name@),
    {
        ConfigError::Wrong { name: name.to_owned() }
    }

    pub fn message(text: &str) -> (e: ConfigError)
        ensures
            e@ == Fault::Message(text@),
    {
        ConfigError::Message { text: text.to_owned() }
    }

    /// A message that ends in a text of the script.
    pub fn about(lead: &str, text: &str) -> (e: ConfigError)
        ensures
            e@ == Fault::Message(lead@ + text@),
    {
        let mut s = lead.to_owned();
        s.append(text);
        ConfigError::Message { text: s }
    }

    /// The error in words.
    pub fn describe(&self) -> (s: String)
        ensures
            s@ == (match self@ {
                Fault::Wrong(name) => "wrong or missing value for `"@ + name + "`"@,
                Fault::Message(text) => text,
            }),
    {
        match self {
            ConfigError::Wrong { name } => {
                let mut s = "wrong or missing value for `".to_owned();
                s.append(name);
                s.append("`");
                s
            },
            ConfigError::Message { text } => text.clone(),
        }
    }
}

/// Whether `r` is what `s` says: the same value, or an error of that kind.
pub open spec fn gives<T>(r: Result<T, ConfigError>, s: Result<T, Fault>) -> bool {
    match s {
        Ok(v) => r matches Ok(x) && x == v,
        Err(f) => r matches Err(e) && e@ == f,
    }
}

// ---- laws ----

/// What comes before the first pair of a name does not matter to the search.
proof fn earlier_pairs_are_skipped(pairs: Seq<LuaPair>, name: Seq<char>, from: int, at: int)
    requires
        0 <= from <= at <= pairs.len(),
        forall|j: int|
            from <= j < at ==> !((#[trigger] pairs[j]).name is Some && pairs[j].name->0@ == name),
    ensures
        found(pairs, name, from) == found(pairs, name, at),
    decreases at - from,
{
    if from < at {
        earlier_pairs_are_skipped(pairs, name, from + 1, at);
    }
}

/// What a table holds under a name is the value of its first pair of that name:
/// each reading of the table is that reading of the value.
pub proof fn the_first_pair_of_a_name_counts(t: LuaTable, name: Seq<char>, i: int)
    requires
        0 <= i < t.pairs@.len(),
        t.pairs@[i].name matches Some(n) && n@ == name,
        forall|j: int|
            0 <= j < i ==> !((#[trigger] t.pairs@[j]).name is Some && t.pairs@[j].name->0@ == name),
    ensures
        t.at(name) == Some(t.pairs@[i].value),
        t.text(name) == t.pairs@[i].value.text,
        t.signed(name) == t.pairs@[i].value.signed,
        t.byte(name) == t.pairs@[i].value.byte,
        t.word(name) == t.pairs@[i].value.word,
        t.size(name) == t.pairs@[i].value.size,
        t.double(name) == t.pairs@[i].value.double,
        t.single(name) == t.pairs@[i].value.single,
        forall|inner: LuaTable|
            t.table(name) == Some(inner) <==> t.pairs@[i].value.kind == LuaKind::Table(inner),
        forall|h: u64|
            t.function(name) == Some(h) <==> t.pairs@[i].value.kind == LuaKind::Function(h),
        t.present(name) <==> t.pairs@[i].value.kind != LuaKind::Nil,
        t.flag(name) <==> t.pairs@[i].value.kind != LuaKind::Nil && t.pairs@[i].value.kind
            != LuaKind::Boolean(false),
{
    earlier_pairs_are_skipped(t.pairs@, name, 0, i);
}

/// A name that no pair has is not there, in any reading, and counts as false.
pub proof fn names_without_a_pair_are_absent(t: LuaTable, name: Seq<char>)
    requires
        forall|j: int|
            0 <= j < t.pairs@.len() ==> !((#[trigger] t.pairs@[j]).name is Some
                && t.pairs@[j].name->0@ == name),
    ensures
        t.at(name) is None,
        t.text(name) is None,
        t.signed(name) is None,
        t.byte(name) is None,
        t.word(name) is None,
        t.size(name) is None,
        t.double(name) is None,
        t.single(name) is None,
        t.table(name) is None,
        t.function(name) is None,
        !t.present(name),
        !t.flag(name),
{
    earlier_pairs_are_skipped(t.pairs@, name, 0, t.pairs@.len() as int);
}

/// Only nil and the value false count as false: a zero and an empty text do not.
pub proof fn only_nil_and_false_are_untrue(kind: LuaKind)
    ensures
        kind.truth() <==> kind != LuaKind::Nil && kind != LuaKind::Boolean(false),
{
}

/// A result tells exactly what it should: the value, or the fault.
pub proof fn results_tell_value_or_fault<T>(r: Result<T, ConfigError>, v: T, f: Fault)
    ensures
        gives(r, Ok::<T, Fault>(v)) <==> r == Ok::<T, ConfigError>(v),
        gives(r, Err::<T, Fault>(f)) <==> (r matches Err(e) && e@ == f),
        r matches Err(ConfigError::Wrong { name }) ==> (gives(r, Err::<T, Fault>(f)) <==> f
            == Fault::Wrong(name@)),
        r matches Err(ConfigError::Message { text }) ==> (gives(r, Err::<T, Fault>(f)) <==> f
            == Fault::Message(text@)),
{
}

} // verus!
