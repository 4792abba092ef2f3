//! The alias table: names that stand for other color specs.
use vstd::prelude::*;
use crate::color::spec_color;
use crate::rgb::RGB;
use crate::text::str_eq;

verus! {

/// A table from alias names to color specs, with unique names.
///
/// A value is a color spec in its own right (a named color, a semantic name or a
/// hex string): it is never looked up in the table again.
#[derive(Clone)]
pub struct ColorRegistry {
    names: Vec<String>,
    values: Vec<String>,
    contents: Ghost<Map<Seq<char>, Seq<char>>>,
}

impl View for ColorRegistry {
    type V = Map<Seq<char>, Seq<char>>;

    closed spec fn view(&self) -> Map<Seq<char>, Seq<char>> {
        self.contents@
    }
}

impl ColorRegistry {
    /// The table is well formed: one entry per name, and its entries are exactly
    /// those of its view.
    pub closed spec fn wf(&self) -> bool {
        &&& self.names@.len() == self.values@.len()
        &&& forall|i: int, j: int|
            0 <= i < j < self.names@.len() ==> #[trigger] self.names@[i]@ != #[trigger] self.names@[j]@
        &&& forall|i: int|
            0 <= i < self.names@.len() ==> self.contents@.contains_key(#[trigger] self.names@[i]@)
                && self.contents@[self.names@[i]@] == self.values@[i]@
        &&& forall|k: Seq<char>|
            #[trigger] self.contents@.contains_key(k) ==> exists|i: int|
                0 <= i < self.names@.len() && #[trigger] self.names@[i]@ == k
    }

    /// An empty table.
    pub fn new() -> (r: ColorRegistry)
        ensures
            r.wf(),
            r@ == Map::<Seq<char>, Seq<char>>::empty(),
    {
        ColorRegistry { names: Vec::new(), values: Vec::new(), contents: Ghost(Map::empty()) }
    }

    fn position(&self, name: &str) -> (r: Option<usize>)
        requires
            self.wf(),
        ensures
            match r {
                Some(i) => i < self.names@.len() && self.names@[i as int]@ == name@,
                None => !self@.contains_key(name@),
            },
    {
        let mut i: usize = 0;
        while i < self.names.len()
            invariant
                self.wf(),
                i <= self.names@.len(),
                forall|j: int| 0 <= j < i ==> #[trigger] self.names@[j]@ != name@,
            decreases self.names@.len() - i,
        {
            if str_eq(self.names[i].as_str(), name) {
                return Some(i);
            }
            i = i + 1;
        }
        None
    }

    /// The color spec registered under `name`, if any.
    pub fn lookup(&self, name: &str) -> (r: Option<String>)
        requires
            self.wf(),
        ensures
            match r {
                Some(v) => self@.contains_key(name@) && v@ == self@[name@],
                None => !self@.contains_key(name@),
            },
    {
        match self.position(name) {
            Some(i) => Some(self.values[i].clone()),
            None => None,
        }
    }

    /// Registers `value` under `name`, replacing an earlier value of that name.
    pub fn insert(&mut self, name: &str, value: &str)
        requires
            old(self).wf(),
        ensures
            final(self).wf(),
            final(self)@ == old(self)@.insert(name@, value@),
    {
        let ghost m = self.contents@.insert(name@, value@);
        match self.position(name) {
            Some(i) => {
                self.values[i] = String::from_str(value);
                self.contents = Ghost(m);
                assert forall|k: Seq<char>| #[trigger] self.contents@.contains_key(k) implies exists|
                    j: int,
                | 0 <= j < self.names@.len() && #[trigger] self.names@[j]@ == k by {
                    if k != name@ {
                        assert(old(self).contents@.contains_key(k));
                    }
                }
            },
            None => {
                let ghost n = self.names@.len();
                self.names.push(String::from_str(name));
                self.values.push(String::from_str(value));
                self.contents = Ghost(m);
                assert forall|i: int| 0 <= i < self.names@.len() implies self.contents@.contains_key(
                    #[trigger] self.names@[i]@,
                ) && self.contents@[self.names@[i]@] == self.values@[i]@ by {
                    if i < n {
                        assert(old(self).names@[i]@ != name@);
                    }
                }
                assert forall|k: Seq<char>| #[trigger] self.contents@.contains_key(k) implies exists|
                    j: int,
                | 0 <= j < self.names@.len() && #[trigger] self.names@[j]@ == k by {
                    if k != name@ {
                        assert(old(self).contents@.contains_key(k));
                        let j = choose|j: int|
                            0 <= j < old(self).names@.len() && #[trigger] old(self).names@[j]@ == k;
                        assert(self.names@[j]@ == k);
                    } else {
                        assert(self.names@[n as int]@ == k);
                    }
                }
            },
        }
    }
}

/// The built-in aliases every new table starts with.
pub open spec fn default_aliases() -> Map<Seq<char>, Seq<char>> {
    Map::<Seq<char>, Seq<char>>::empty()
        .insert("h1"@, "#fff"@)
        .insert("txt"@, "#bbb"@)
        .insert("text"@, "#bbb"@)
        .insert(""@, "#bbb"@)
        .insert("error"@, "#f00"@)
        .insert("warn"@, "#ffea00"@)
        .insert("key"@, "#4CF"@)
        .insert("opt"@, "#78aeff"@)
        .insert("option"@, "#78aeff"@)
        .insert("filename"@, "#e0c16c"@)
        .insert("command"@, "#dbd488"@)
        .insert("success"@, "#32CD32"@)
        .insert("success_dim"@, "#80ad80"@)
}

/// A new alias table holding the built-in aliases.
pub fn ensure_custom_colors() -> (r: ColorRegistry)
    ensures
        r.wf(),
        r@ == default_aliases(),
{
    let mut colors = ColorRegistry::new();
    colors.insert("h1", "#fff");
    colors.insert("txt", "#bbb");
    colors.insert("text", "#bbb");
    colors.insert("", "#bbb");
    colors.insert("error", "#f00");
    colors.insert("warn", "#ffea00");
    colors.insert("key", "#4CF");
    colors.insert("opt", "#78aeff");
    colors.insert("option", "#78aeff");
    colors.insert("filename", "#e0c16c");
    colors.insert("command", "#dbd488");
    colors.insert("success", "#32CD32");
    colors.insert("success_dim", "#80ad80");
    colors
}

/// Adds an alias to the table, or replaces the value of an existing one.
pub fn cprint_add_color(colors: &mut ColorRegistry, name: &str, value: &str)
    requires
        old(colors).wf(),
    ensures
        final(colors).wf(),
        final(colors)@ == old(colors)@.insert(name@, value@),
{
    colors.insert(name, value);
}

/// Adds an alias to the table, or replaces the value of an existing one.
pub fn cprintln_add_color(colors: &mut ColorRegistry, name: &str, value: &str)
    requires
        old(colors).wf(),
    ensures
        final(colors).wf(),
        final(colors)@ == old(colors)@.insert(name@, value@),
{
    colors.insert(name, value);
}

/// What `tag` stands for: its registered value when it is an alias, else itself.
pub open spec fn expand_alias(aliases: Map<Seq<char>, Seq<char>>, tag: Seq<char>) -> Seq<char> {
    if aliases.contains_key(tag) {
        aliases[tag]
    } else {
        tag
    }
}

/// The color a tag resolves to: its alias value (one step only), then a named
/// HTML color, a semantic name, or a hex color.
pub open spec fn resolve(aliases: Map<Seq<char>, Seq<char>>, tag: Seq<char>) -> Option<RGB> {
    spec_color(expand_alias(aliases, tag))
}

/// Resolves `color` to an RGB value; see [`resolve`]. `None` when it names no color.
pub fn parse_color(colors: &ColorRegistry, color: &str) -> (r: Option<RGB>)
    requires
        colors.wf(),
    ensures
        r == resolve(colors@, color@),
{
    match colors.lookup(color) {
        Some(v) => crate::color::resolve_spec_color(v.as_str()),
        None => crate::color::resolve_spec_color(color),
    }
}

/// The table after registering `values[i]` under `names[i]`, in order.
pub open spec fn register_all(
    aliases: Map<Seq<char>, Seq<char>>,
    names: Seq<Seq<char>>,
    values: Seq<Seq<char>>,
) -> Map<Seq<char>, Seq<char>>
    decreases names.len(),
{
    if names.len() == 0 || names.len() != values.len() {
        aliases
    } else {
        register_all(aliases, names.drop_last(), values.drop_last()).insert(
            names.last(),
            values.last(),
        )
    }
}

/// Registering distinct names one after another, in whatever order the calls are
/// serialized, loses none of them: each name maps to the value given with it.
pub proof fn lemma_register_all_kept(
    aliases: Map<Seq<char>, Seq<char>>,
    names: Seq<Seq<char>>,
    values: Seq<Seq<char>>,
)
    requires
        names.len() == values.len(),
        forall|i: int, j: int| 0 <= i < j < names.len() ==> names[i] != names[j],
    ensures
        forall|i: int|
            0 <= i < names.len() ==> #[trigger] register_all(aliases, names, values).contains_key(
                names[i],
            ) && register_all(aliases, names, values)[names[i]] == values[i],
    decreases names.len(),
{
    if names.len() > 0 {
        let n = names.len() - 1;
        let prev = register_all(aliases, names.drop_last(), values.drop_last());
        lemma_register_all_kept(aliases, names.drop_last(), values.drop_last());
        assert(register_all(aliases, names, values) == prev.insert(names[n], values[n]));
        assert forall|i: int| 0 <= i < names.len() implies #[trigger] register_all(
            aliases,
            names,
            values,
        ).contains_key(names[i]) && register_all(aliases, names, values)[names[i]]
            == values[i] by {
            if i < n {
                assert(names.drop_last()[i] == names[i]);
                assert(values.drop_last()[i] == values[i]);
                assert(names[i] != names[n]);
                assert(prev.contains_key(names.drop_last()[i]));
            }
        }
    }
}

} // verus!
