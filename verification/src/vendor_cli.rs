//! Vendor command templates: lookup by category or id, and rendering of
//! `{name}` placeholders.
use vstd::prelude::*;
use vstd::string::*;

use crate::seqs::{first_such, lemma_filter_take_step, lemma_first_hit, lemma_take_all};
use crate::text::{replace_all, replace_str};

verus! {

broadcast use vstd::seq_lib::group_seq_properties;

/// A command argument.
#[derive(Debug, Clone)]
pub struct ArgDef {
    pub name: String,
    pub label: String,
    pub arg_type: String,
    pub placeholder: Option<String>,
}

/// One command template.
#[derive(Debug, Clone)]
pub struct CommandTemplate {
    pub id: String,
    pub category: String,
    pub label: String,
    pub command: String,
    pub args: Vec<ArgDef>,
    pub interactive: bool,
    pub confirm: Option<String>,
}

/// A command category.
#[derive(Debug, Clone)]
pub struct Category {
    pub id: String,
    pub label: String,
}

/// The templates of one vendor.
#[derive(Debug, Clone)]
pub struct VendorTemplate {
    pub vendor: String,
    pub label: String,
    pub prompt_features: Vec<String>,
    pub enter_config: String,
    pub exit_config: String,
    pub show_run: String,
    pub save_config: String,
    pub categories: Vec<Category>,
    pub commands: Vec<CommandTemplate>,
}

/// Whether a command belongs to the category.
pub open spec fn in_category(category: Seq<char>) -> spec_fn(CommandTemplate) -> bool {
    |c: CommandTemplate| c.category@ == category
}

/// Whether a command has the id.
pub open spec fn command_has_id(id: Seq<char>) -> spec_fn(CommandTemplate) -> bool {
    |c: CommandTemplate| c.id@ == id
}

/// Whether a template set belongs to the vendor.
pub open spec fn is_vendor(vendor: Seq<char>) -> spec_fn(VendorTemplate) -> bool {
    |v: VendorTemplate| v.vendor@ == vendor
}

/// The targets of a list of references.
pub open spec fn derefs<T>(v: Seq<&T>) -> Seq<T> {
    v.map_values(|x: &T| *x)
}

impl VendorTemplate {
    /// The commands of a category, in template order.
    pub fn commands_by_category(&self, category: &str) -> (r: Vec<&CommandTemplate>)
        ensures
            derefs(r@) == self.commands@.filter(in_category(category@)),
    {
        let ghost p = in_category(category@);
        let mut out: Vec<&CommandTemplate> = Vec::new();
        let mut i: usize = 0;
        while i < self.commands.len()
            invariant
                i <= self.commands@.len(),
                p == in_category(category@),
                derefs(out@) == self.commands@.take(i as int).filter(p),
            decreases self.commands@.len() - i,
        {
            proof {
                lemma_filter_take_step(self.commands@, p, i as int);
            }
            let c = &self.commands[i];
            let ghost before = out@;
            if crate::topology::string_is(&c.category, category) {
                out.push(c);
                assert(derefs(out@) =~= derefs(before).push(*c));
            }
            i = i + 1;
        }
        proof {
            lemma_take_all(self.commands@);
        }
        out
    }

    /// The first command with the id.
    pub fn command(&self, id: &str) -> (r: Option<&CommandTemplate>)
        ensures
            match r {
                Some(c) => first_such(self.commands@, command_has_id(id@)) == Some(*c),
                None => first_such(self.commands@, command_has_id(id@)) is None,
            },
    {
        let ghost p = command_has_id(id@);
        let mut i: usize = 0;
        while i < self.commands.len()
            invariant
                i <= self.commands@.len(),
                p == command_has_id(id@),
                self.commands@.take(i as int).filter(p).len() == 0,
            decreases self.commands@.len() - i,
        {
            proof {
                lemma_filter_take_step(self.commands@, p, i as int);
            }
            if crate::topology::string_is(&self.commands[i].id, id) {
                proof {
                    lemma_first_hit(self.commands@, p, i as int);
                }
                return Some(&self.commands[i]);
            }
            i = i + 1;
        }
        proof {
            lemma_take_all(self.commands@);
        }
        None
    }
}

/// The template database.
#[derive(Debug, Clone)]
pub struct VendorDb {
    vendors: Vec<VendorTemplate>,
}

impl VendorDb {
    /// The vendor template sets, in load order.
    pub closed spec fn templates(&self) -> Seq<VendorTemplate> {
        self.vendors@
    }

    /// A database holding the given template sets.
    pub fn from_templates(vendors: Vec<VendorTemplate>) -> (db: Self)
        ensures
            db.templates() == vendors@,
    {
        VendorDb { vendors }
    }

    /// An empty database.
    pub fn empty() -> (db: Self)
        ensures
            db.templates().len() == 0,
    {
        VendorDb { vendors: Vec::new() }
    }

    pub fn vendors(&self) -> (r: &[VendorTemplate])
        ensures
            r@ == self.templates(),
    {
        self.vendors.as_slice()
    }

    /// The first template set of the vendor.
    pub fn get(&self, vendor: &str) -> (r: Option<&VendorTemplate>)
        ensures
            match r {
                Some(v) => first_such(self.templates(), is_vendor(vendor@)) == Some(*v),
                None => first_such(self.templates(), is_vendor(vendor@)) is None,
            },
    {
        let ghost p = is_vendor(vendor@);
        let mut i: usize = 0;
        while i < self.vendors.len()
            invariant
                i <= self.vendors@.len(),
                p == is_vendor(vendor@),
                self.vendors@.take(i as int).filter(p).len() == 0,
            decreases self.vendors@.len() - i,
        {
            proof {
                lemma_filter_take_step(self.vendors@, p, i as int);
            }
            if crate::topology::string_is(&self.vendors[i].vendor, vendor) {
                proof {
                    lemma_first_hit(self.vendors@, p, i as int);
                }
                return Some(&self.vendors[i]);
            }
            i = i + 1;
        }
        proof {
            lemma_take_all(self.vendors@);
        }
        None
    }
}

/// The placeholder text of an argument name: `{name}`.
pub open spec fn placeholder(name: Seq<char>) -> Seq<char> {
    "{"@ + name + "}"@
}

/// A command with each `{name}` of the arguments replaced by its value, argument by argument.
pub open spec fn rendered(command: Seq<char>, args: Seq<(Seq<char>, Seq<char>)>) -> Seq<char>
    decreases args.len(),
{
    if args.len() == 0 {
        command
    } else {
        replace_all(rendered(command, args.drop_last()), placeholder(args.last().0), args.last().1)
    }
}

/// The views of the argument pairs.
pub open spec fn arg_views(args: Seq<(&str, String)>) -> Seq<(Seq<char>, Seq<char>)> {
    args.map_values(|a: (&str, String)| (a.0@, a.1@))
}

/// Instantiates a command template: every `{name}` becomes the argument's value.
pub fn render_command(command: &str, args: &[(&str, String)]) -> (r: String)
    ensures
        r@ == rendered(command@, arg_views(args@)),
{
    let mut s = String::from_str(command);
    let ghost av = arg_views(args@);
    let mut i: usize = 0;
    assert(av.take(0) =~= Seq::<(Seq<char>, Seq<char>)>::empty());
    while i < args.len()
        invariant
            i <= args@.len(),
            av == arg_views(args@),
            s@ == rendered(command@, av.take(i as int)),
        decreases args@.len() - i,
    {
        let (k, v) = &args[i];
        let mut pat = String::from_str("{");
        pat.append(k);
        pat.append("}");
        proof {
            reveal_strlit("{");
        }
        assert(av.take(i + 1).drop_last() =~= av.take(i as int));
        assert(av.take(i + 1).last() == (k@, v@));
        s = replace_str(s.as_str(), pat.as_str(), v.as_str());
        i = i + 1;
    }
    assert(av.take(args@.len() as int) =~= av);
    s
}

} // verus!
