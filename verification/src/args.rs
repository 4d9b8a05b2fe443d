//! The arguments of an MCP tool call, as the dispatcher reads them, and the
//! typed accessors over them.

use vstd::prelude::*;
use crate::text::{concat3, str_eq};

verus! {

/// A JSON number, as the dispatcher reads it: its value as an `i64` and as a
/// `u64` when it is an integer that fits.
#[derive(Clone, Copy, Debug, PartialEq, Eq)]
pub struct ArgNumber {
    pub as_i64: Option<i64>,
    pub as_u64: Option<u64>,
}

/// A JSON argument value, holding what the dispatcher reads of it.
#[derive(Debug)]
pub enum ArgValue {
    Null,
    Bool(bool),
    Number(ArgNumber),
    Str(String),
    Array(Vec<ArgValue>),
    /// A JSON object; its members are never read as an argument value.
    Object,
}

/// The members of the tool call's argument object (empty when the arguments are
/// not an object). Member names are unique, as in a JSON object.
#[derive(Debug)]
pub struct ToolArgs {
    pub entries: Vec<(String, ArgValue)>,
}

/// The value of the first member named `name`.
pub open spec fn spec_get(entries: Seq<(String, ArgValue)>, name: Seq<char>) -> Option<ArgValue>
    decreases entries.len(),
{
    if entries.len() == 0 {
        None
    } else if entries[0].0@ == name {
        Some(entries[0].1)
    } else {
        spec_get(entries.drop_first(), name)
    }
}

/// The string argument `name`, when present and a string.
pub open spec fn spec_string_arg(args: ToolArgs, name: Seq<char>) -> Option<String> {
    match spec_get(args.entries@, name) {
        Some(ArgValue::Str(s)) => Some(s),
        _ => None,
    }
}

/// The boolean argument `name`, when present and a boolean.
pub open spec fn spec_bool_arg(args: ToolArgs, name: Seq<char>) -> Option<bool> {
    match spec_get(args.entries@, name) {
        Some(ArgValue::Bool(b)) => Some(b),
        _ => None,
    }
}

/// The argument `name` as an `i64`, when present and an integer that fits.
pub open spec fn spec_i64_value(args: ToolArgs, name: Seq<char>) -> Option<i64> {
    match spec_get(args.entries@, name) {
        Some(ArgValue::Number(n)) => n.as_i64,
        _ => None,
    }
}

/// The message for an argument that should be an integer and is not.
pub open spec fn spec_not_integer_message(name: Seq<char>) -> Seq<char> {
    "\""@ + name + "\" must be an integer"@
}

/// The message for an argument that should be a non-negative integer and is not.
pub open spec fn spec_not_count_message(name: Seq<char>) -> Seq<char> {
    "\""@ + name + "\" must be a non-negative integer"@
}

/// An optional integer argument: absent or `null` is `None`, an integer that
/// fits `i64` is its value, anything else is an error.
pub open spec fn spec_i64_arg(args: ToolArgs, name: Seq<char>) -> Result<Option<i64>, Seq<char>> {
    match spec_get(args.entries@, name) {
        None => Ok(None),
        Some(ArgValue::Null) => Ok(None),
        Some(ArgValue::Number(n)) => match n.as_i64 {
            Some(v) => Ok(Some(v)),
            None => Err(spec_not_integer_message(name)),
        },
        _ => Err(spec_not_integer_message(name)),
    }
}

/// An optional count argument: absent or `null` is `None`, a non-negative
/// integer that fits `usize` is its value, anything else is an error.
pub open spec fn spec_usize_arg(args: ToolArgs, name: Seq<char>) -> Result<Option<usize>, Seq<char>> {
    match spec_get(args.entries@, name) {
        None => Ok(None),
        Some(ArgValue::Null) => Ok(None),
        Some(ArgValue::Number(n)) => match n.as_u64 {
            Some(v) => if v <= usize::MAX {
                Ok(Some(v as usize))
            } else {
                Err(spec_not_count_message(name))
            },
            None => Err(spec_not_count_message(name)),
        },
        _ => Err(spec_not_count_message(name)),
    }
}

/// The string items of a list, in order (non-string items are skipped).
pub open spec fn spec_string_items(items: Seq<ArgValue>) -> Seq<String>
    decreases items.len(),
{
    if items.len() == 0 {
        Seq::empty()
    } else {
        let r = spec_string_items(items.drop_last());
        match items.last() {
            ArgValue::Str(s) => r.push(s),
            _ => r,
        }
    }
}

/// The string items of the list argument `name`, when it is a list with at
/// least one string item.
pub open spec fn spec_string_list_arg(args: ToolArgs, name: Seq<char>) -> Option<Seq<String>> {
    match spec_get(args.entries@, name) {
        Some(ArgValue::Array(items)) => {
            let s = spec_string_items(items@);
            if s.len() > 0 {
                Some(s)
            } else {
                None
            }
        },
        _ => None,
    }
}

impl ToolArgs {
    /// The value of the member named `name`.
    pub fn get(&self, name: &str) -> (r: Option<&ArgValue>)
        ensures
            match spec_get(self.entries@, name@) {
                Some(v) => r == Some(&v),
                None => r is None,
            },
    {
        let mut i: usize = 0;
        assert(self.entries@.skip(0) =~= self.entries@);
        while i < self.entries.len()
            invariant
                i <= self.entries@.len(),
                spec_get(self.entries@, name@) == spec_get(self.entries@.skip(i as int), name@),
            decreases self.entries@.len() - i,
        {
            let ghost rest = self.entries@.skip(i as int);
            assert(rest.drop_first() =~= self.entries@.skip(i + 1));
            assert(rest[0] == self.entries@[i as int]);
            if str_eq(self.entries[i].0.as_str(), name) {
                return Some(&self.entries[i].1);
            }
            i = i + 1;
        }
        assert(self.entries@.skip(i as int).len() == 0);
        None
    }

    /// The string argument `name`.
    pub fn string_arg(&self, name: &str) -> (r: Option<String>)
        ensures
            r == spec_string_arg(*self, name@),
    {
        match self.get(name) {
            Some(ArgValue::Str(s)) => Some(s.clone()),
            _ => None,
        }
    }

    /// The boolean argument `name`.
    pub fn bool_arg(&self, name: &str) -> (r: Option<bool>)
        ensures
            r == spec_bool_arg(*self, name@),
    {
        match self.get(name) {
            Some(ArgValue::Bool(b)) => Some(*b),
            _ => None,
        }
    }

    /// The argument `name` read as an `i64`.
    pub fn i64_value(&self, name: &str) -> (r: Option<i64>)
        ensures
            r == spec_i64_value(*self, name@),
    {
        match self.get(name) {
            Some(ArgValue::Number(n)) => n.as_i64,
            _ => None,
        }
    }

    /// The optional integer argument `name`; the error is the message.
    pub fn i64_arg(&self, name: &str) -> (r: Result<Option<i64>, String>)
        ensures
            match spec_i64_arg(*self, name@) {
                Ok(v) => r == Ok::<Option<i64>, String>(v),
                Err(m) => r matches Err(e) && e@ == m,
            },
    {
        match self.get(name) {
            None => Ok(None),
            Some(ArgValue::Null) => Ok(None),
            Some(ArgValue::Number(n)) => match n.as_i64 {
                Some(v) => Ok(Some(v)),
                None => Err(concat3("\"", name, "\" must be an integer")),
            },
            _ => Err(concat3("\"", name, "\" must be an integer")),
        }
    }

    /// The optional count argument `name`; the error is the message.
    pub fn usize_arg(&self, name: &str) -> (r: Result<Option<usize>, String>)
        ensures
            match spec_usize_arg(*self, name@) {
                Ok(v) => r == Ok::<Option<usize>, String>(v),
                Err(m) => r matches Err(e) && e@ == m,
            },
    {
        match self.get(name) {
            None => Ok(None),
            Some(ArgValue::Null) => Ok(None),
            Some(ArgValue::Number(n)) => match n.as_u64 {
                Some(v) => if v <= usize::MAX as u64 {
                    Ok(Some(v as usize))
                } else {
                    Err(concat3("\"", name, "\" must be a non-negative integer"))
                },
                None => Err(concat3("\"", name, "\" must be a non-negative integer")),
            },
            _ => Err(concat3("\"", name, "\" must be a non-negative integer")),
        }
    }

    /// The string items of the list argument `name`, when there is at least one.
    pub fn string_list_arg(&self, name: &str) -> (r: Option<Vec<String>>)
        ensures
            match spec_string_list_arg(*self, name@) {
                Some(s) => r matches Some(v) && v@ == s,
                None => r is None,
            },
    {
        match self.get(name) {
            Some(ArgValue::Array(items)) => {
                let mut out: Vec<String> = Vec::new();
                let mut i: usize = 0;
                while i < items.len()
                    invariant
                        i <= items@.len(),
                        out@ == spec_string_items(items@.take(i as int)),
                    decreases items@.len() - i,
                {
                    assert(items@.take(i + 1).drop_last() =~= items@.take(i as int));
                    assert(items@.take(i + 1).last() == items@[i as int]);
                    match &items[i] {
                        ArgValue::Str(s) => {
                            out.push(s.clone());
                        },
                        _ => {},
                    }
                    i = i + 1;
                }
                assert(items@.take(items@.len() as int) =~= items@);
                if out.len() > 0 {
                    Some(out)
                } else {
                    None
                }
            },
            _ => None,
        }
    }
}

/// The member at index `k` is the first one named `name`.
pub open spec fn first_named(entries: Seq<(String, ArgValue)>, name: Seq<char>, k: int) -> bool {
    &&& 0 <= k < entries.len()
    &&& entries[k].0@ == name
    &&& forall|j: int| 0 <= j < k ==> (#[trigger] entries[j]).0@ != name
}

proof fn lemma_get_first(entries: Seq<(String, ArgValue)>, name: Seq<char>, k: int)
    requires
        first_named(entries, name, k),
    ensures
        spec_get(entries, name) == Some(entries[k].1),
    decreases k,
{
    if k > 0 {
        assert(entries[0].0@ != name);
        let t = entries.drop_first();
        assert forall|j: int| 0 <= j < k - 1 implies (#[trigger] t[j]).0@ != name by {
            assert(t[j] == entries[j + 1]);
        }
        assert(t[k - 1] == entries[k]);
        lemma_get_first(t, name, k - 1);
    }
}

proof fn lemma_get_absent(entries: Seq<(String, ArgValue)>, name: Seq<char>)
    requires
        forall|j: int| 0 <= j < entries.len() ==> (#[trigger] entries[j]).0@ != name,
    ensures
        spec_get(entries, name) is None,
    decreases entries.len(),
{
    if entries.len() > 0 {
        let t = entries.drop_first();
        assert(entries[0].0@ != name);
        assert forall|j: int| 0 <= j < t.len() implies (#[trigger] t[j]).0@ != name by {
            assert(t[j] == entries[j + 1]);
        }
        lemma_get_absent(t, name);
    }
}

proof fn lemma_string_items_all_strings(items: Seq<ArgValue>)
    requires
        forall|i: int| 0 <= i < items.len() ==> (#[trigger] items[i]) is Str,
    ensures
        spec_string_items(items).len() == items.len(),
        forall|i: int| 0 <= i < items.len() ==> items[i] == ArgValue::Str(#[trigger] spec_string_items(items)[i]),
    decreases items.len(),
{
    if items.len() > 0 {
        let prev = items.drop_last();
        assert forall|i: int| 0 <= i < prev.len() implies (#[trigger] prev[i]) is Str by {
            assert(prev[i] == items[i]);
        }
        lemma_string_items_all_strings(prev);
        assert forall|i: int| 0 <= i < items.len() implies items[i] == ArgValue::Str(
            #[trigger] spec_string_items(items)[i],
        ) by {
            if i < prev.len() {
                assert(prev[i] == items[i]);
            }
        }
    }
}

/// Reading an argument reads the first member with its name, and gives back the
/// JSON value found there: a string as that string, a boolean as that boolean
/// (`false` as `false`), an integer as that integer, `null` as absent, and a
/// list of strings as those strings in order; a value of another kind is not
/// taken for the argument, and a malformed integer or count is an error.
pub proof fn lemma_arguments_read_the_given_value(args: ToolArgs, name: Seq<char>, k: int)
    requires
        first_named(args.entries@, name, k),
    ensures
        match args.entries@[k].1 {
            ArgValue::Str(s) => {
                &&& spec_string_arg(args, name) == Some(s)
                &&& spec_bool_arg(args, name) is None
                &&& spec_i64_arg(args, name) is Err
                &&& spec_usize_arg(args, name) is Err
                &&& spec_string_list_arg(args, name) is None
            },
            ArgValue::Bool(b) => {
                &&& spec_bool_arg(args, name) == Some(b)
                &&& spec_string_arg(args, name) is None
                &&& spec_i64_arg(args, name) is Err
                &&& spec_usize_arg(args, name) is Err
                &&& spec_string_list_arg(args, name) is None
            },
            ArgValue::Number(n) => {
                &&& spec_i64_value(args, name) == n.as_i64
                &&& spec_string_arg(args, name) is None
                &&& spec_bool_arg(args, name) is None
                &&& spec_string_list_arg(args, name) is None
                &&& match n.as_i64 {
                    Some(x) => spec_i64_arg(args, name) == Ok::<Option<i64>, Seq<char>>(Some(x)),
                    None => spec_i64_arg(args, name) is Err,
                }
                &&& match n.as_u64 {
                    Some(x) => if x <= usize::MAX {
                        spec_usize_arg(args, name) == Ok::<Option<usize>, Seq<char>>(Some(x as usize))
                    } else {
                        spec_usize_arg(args, name) is Err
                    },
                    None => spec_usize_arg(args, name) is Err,
                }
            },
            ArgValue::Null => {
                &&& spec_string_arg(args, name) is None
                &&& spec_bool_arg(args, name) is None
                &&& spec_i64_arg(args, name) == Ok::<Option<i64>, Seq<char>>(None)
                &&& spec_usize_arg(args, name) == Ok::<Option<usize>, Seq<char>>(None)
                &&& spec_string_list_arg(args, name) is None
            },
            ArgValue::Array(items) => {
                &&& spec_string_arg(args, name) is None
                &&& spec_bool_arg(args, name) is None
                &&& spec_i64_arg(args, name) is Err
                &&& spec_usize_arg(args, name) is Err
                &&& (items@.len() > 0 && (forall|i: int| 0 <= i < items@.len() ==> (#[trigger] items@[i]) is Str))
                    ==> (spec_string_list_arg(args, name) matches Some(l) && l.len() == items@.len() && forall|i: int|
                    0 <= i < items@.len() ==> items@[i] == ArgValue::Str(#[trigger] l[i]))
            },
            ArgValue::Object => {
                &&& spec_string_arg(args, name) is None
                &&& spec_bool_arg(args, name) is None
                &&& spec_i64_arg(args, name) is Err
                &&& spec_usize_arg(args, name) is Err
                &&& spec_string_list_arg(args, name) is None
            },
        },
{
    lemma_get_first(args.entries@, name, k);
    let v = args.entries@[k].1;
    if let ArgValue::Array(items) = v {
        if items@.len() > 0 && (forall|i: int| 0 <= i < items@.len() ==> (#[trigger] items@[i]) is Str) {
            lemma_string_items_all_strings(items@);
        }
    }
}

/// An argument no member names is absent: not a string, boolean or list, and an
/// absent integer or count.
pub proof fn lemma_absent_arguments(args: ToolArgs, name: Seq<char>)
    requires
        forall|j: int| 0 <= j < args.entries@.len() ==> (#[trigger] args.entries@[j]).0@ != name,
    ensures
        spec_string_arg(args, name) is None,
        spec_bool_arg(args, name) is None,
        spec_i64_value(args, name) is None,
        spec_i64_arg(args, name) == Ok::<Option<i64>, Seq<char>>(None),
        spec_usize_arg(args, name) == Ok::<Option<usize>, Seq<char>>(None),
        spec_string_list_arg(args, name) is None,
{
    lemma_get_absent(args.entries@, name);
}

} // verus!
