//! A registry of named driver functions, dispatched by name.
//!
//! Synchronous functions take one string argument and answer with a result
//! or an error text; the registry pulls that argument out of the raw
//! argument text by the quoted-pair rule below. Asynchronous entries are
//! registered under the same names but are driven outside this crate, so
//! the registry only stores them.

use vstd::prelude::*;
use vstd::string::*;
use crate::text::{find_spec, lemma_find_spec_some, find_from, is_space, is_space_char, str_eq};

verus! {

/// The first position at or after `i` holding a non-whitespace character,
/// or the end of `s`.
pub open spec fn skip_spaces_spec(s: Seq<char>, i: int) -> int
    decreases s.len() - i + 1,
{
    if i < 0 || i >= s.len() || !is_space(s[i]) {
        i
    } else {
        skip_spaces_spec(s, i + 1)
    }
}

/// The value of the first quoted pair in `s`, by the rule: from the first
/// double quote on, `s` must read as a non-empty quoted key, a colon
/// directly after the key's closing quote, optional whitespace, and a
/// non-empty quoted value. Without such a pair there is no argument.
pub open spec fn first_arg_opt_spec(s: Seq<char>) -> Option<Seq<char>> {
    match find_spec(s, "\""@, 0) {
        None => None,
        Some(i) => match find_spec(s, "\""@, i + 2) {
            None => None,
            Some(j) => if j + 1 < s.len() && s[j + 1] == ':' {
                let k = skip_spaces_spec(s, j + 2);
                if k < s.len() && s[k] == '"' {
                    match find_spec(s, "\""@, k + 2) {
                        None => None,
                        Some(l) => Some(s.subrange(k + 1, l)),
                    }
                } else {
                    None
                }
            } else {
                None
            },
        },
    }
}

/// The argument handed to a dispatched function: the first quoted pair's
/// value, or the empty string when the argument text holds no such pair.
pub open spec fn first_arg_spec(s: Seq<char>) -> Seq<char> {
    match first_arg_opt_spec(s) {
        Some(v) => v,
        None => Seq::empty(),
    }
}

/// Skips whitespace from `i` on.
fn skip_spaces(s: &str, i: usize) -> (r: usize)
    requires
        i <= s@.len(),
    ensures
        r == skip_spaces_spec(s@, i as int),
        i <= r <= s@.len(),
    decreases s@.len() - i,
{
    let n: usize = s.unicode_len();
    if i < n && is_space_char(s.get_char(i)) {
        skip_spaces(s, i + 1)
    } else {
        i
    }
}

/// Extracts the first quoted pair's value from raw argument text.
pub fn first_arg(s: &str) -> (r: String)
    ensures
        r@ == first_arg_spec(s@),
{
    proof {
        reveal_strlit("\"");
    }
    let n: usize = s.unicode_len();
    let i = match find_from(s, "\"", 0) {
        None => {
            return String::new();
        },
        Some(i) => i,
    };
    proof {
        lemma_find_spec_some(s@, "\""@, 0);
    }
    if n - i < 2 {
        return String::new();
    }
    let j = match find_from(s, "\"", i + 2) {
        None => {
            return String::new();
        },
        Some(j) => j,
    };
    proof {
        lemma_find_spec_some(s@, "\""@, i + 2);
    }
    if !(j + 1 < n && s.get_char(j + 1) == ':') {
        return String::new();
    }
    let k = skip_spaces(s, j + 2);
    if !(k < n && s.get_char(k) == '"') {
        return String::new();
    }
    if n - k < 2 {
        return String::new();
    }
    let l = match find_from(s, "\"", k + 2) {
        None => {
            return String::new();
        },
        Some(l) => l,
    };
    proof {
        lemma_find_spec_some(s@, "\""@, k + 2);
    }
    s.substring_char(k + 1, l).to_owned()
}

/// The function registered under `name`: the latest registration shadows
/// earlier ones, as an insert into a map would.
pub open spec fn registry_lookup<T>(entries: Seq<(String, T)>, name: Seq<char>) -> Option<T>
    decreases entries.len(),
{
    if entries.len() == 0 {
        None
    } else if entries.last().0@ == name {
        Some(entries.last().1)
    } else {
        registry_lookup(entries.drop_last(), name)
    }
}

/// Named functions a driver registers and calls by name: synchronous ones
/// of type `F`, called here; asynchronous ones of type `G`, stored for the
/// driver to run outside this crate.
pub struct FunctionRegistry<F, G> {
    pub sync_functions: Vec<(String, F)>,
    pub async_functions: Vec<(String, G)>,
}

impl<F, G> FunctionRegistry<F, G> {
    /// An empty registry.
    pub fn new() -> (r: FunctionRegistry<F, G>)
        ensures
            r.sync_functions@.len() == 0,
            r.async_functions@.len() == 0,
    {
        FunctionRegistry { sync_functions: Vec::new(), async_functions: Vec::new() }
    }

    /// Registers a synchronous function under a name; a later registration
    /// under the same name shadows the earlier one.
    pub fn register_sync_function(&mut self, name: &str, func: F)
        ensures
            final(self).async_functions == old(self).async_functions,
            final(self).sync_functions@.len() == old(self).sync_functions@.len() + 1,
            final(self).sync_functions@.drop_last() == old(self).sync_functions@,
            final(self).sync_functions@.last().0@ == name@,
            final(self).sync_functions@.last().1 == func,
    {
        self.sync_functions.push((name.to_owned(), func));
    }

    /// Registers an asynchronous function under a name; the driver runs it
    /// outside this crate.
    pub fn register_async_function(&mut self, name: &str, func: G)
        ensures
            final(self).sync_functions == old(self).sync_functions,
            final(self).async_functions@.len() == old(self).async_functions@.len() + 1,
            final(self).async_functions@.drop_last() == old(self).async_functions@,
            final(self).async_functions@.last().0@ == name@,
            final(self).async_functions@.last().1 == func,
    {
        self.async_functions.push((name.to_owned(), func));
    }
}

impl<F: Fn(String) -> Result<String, String> + Copy, G> FunctionRegistry<F, G> {
    /// Calls the synchronous function registered under `name` on the first
    /// quoted pair's value of `args` (the empty string when `args` holds no
    /// such pair). An unregistered name is an error, never a panic.
    pub fn call_sync(&self, name: &str, args: &str) -> (r: Result<String, String>)
        requires
            forall|i: int, arg: String|
                0 <= i < self.sync_functions@.len() ==> #[trigger] call_requires(
                    self.sync_functions@[i].1,
                    (arg,),
                ),
        ensures
            match registry_lookup(self.sync_functions@, name@) {
                None => r matches Err(m) && m@ == "Function not found"@,
                Some(f) => exists|arg: String|
                    arg@ == first_arg_spec(args@) && #[trigger] call_ensures(f, (arg,), r),
            },
    {
        let n: usize = self.sync_functions.len();
        let mut i: usize = n;
        proof {
            assert(self.sync_functions@.take(n as int) =~= self.sync_functions@);
        }
        while i > 0
            invariant
                0 <= i <= n,
                n == self.sync_functions@.len(),
                forall|k: int, arg: String|
                    0 <= k < self.sync_functions@.len() ==> #[trigger] call_requires(
                        self.sync_functions@[k].1,
                        (arg,),
                    ),
                registry_lookup(self.sync_functions@, name@) == registry_lookup(
                    self.sync_functions@.take(i as int),
                    name@,
                ),
            decreases i,
        {
            proof {
                assert(self.sync_functions@.take(i as int).last() == self.sync_functions@[i - 1]);
                assert(self.sync_functions@.take(i as int).drop_last() =~= self.sync_functions@.take(
                    i - 1,
                ));
            }
            if str_eq(self.sync_functions[i - 1].0.as_str(), name) {
                let func = self.sync_functions[i - 1].1;
                proof {
                    assert(registry_lookup(self.sync_functions@.take(i as int), name@) == Some(
                        self.sync_functions@[i - 1].1,
                    ));
                }
                let arg = first_arg(args);
                let ghost arg_snapshot = arg;
                let out = func(arg);
                proof {
                    assert(registry_lookup(self.sync_functions@, name@) == Some(func));
                    match registry_lookup(self.sync_functions@, name@) {
                        Some(f0) => {
                            assert(arg_snapshot@ == first_arg_spec(args@) && call_ensures(
                                f0,
                                (arg_snapshot,),
                                out,
                            ));
                        },
                        None => {
                            assert(false);
                        },
                    }
                }
                return out;
            }
            i = i - 1;
        }
        proof {
            assert(self.sync_functions@.take(0).len() == 0);
        }
        Err("Function not found".to_owned())
    }
}

} // verus!
