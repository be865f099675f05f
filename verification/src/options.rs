//! The per-run configuration record: root path, silent flag, and search term.

use vstd::prelude::*;
use vstd::string::StringExecFns;

verus! {

/// The configuration threaded through every call of a run. Search is enabled
/// iff the term is non-empty; `find` caches that derived fact.
pub struct Options {
    pub silent: bool,
    pub path: String,
    pub find: bool,
    pub str_to_find: String,
}

/// The configuration summary that `Options::show` renders.
pub open spec fn spec_show(o: Options) -> Seq<char> {
    "\nSelected path is: "@ + o.path@ + (if o.silent {
        "\nSilent mode is on."@
    } else {
        "\nSilent mode is off."@
    }) + "\n"@ + (if o.find {
        "Search system will track: '"@ + o.str_to_find@ + "'."@
    } else {
        "Search system is desactivated."@
    })
}

impl Options {
    /// The `find` flag agrees with the search term: enabled iff non-empty.
    pub open spec fn wf(self) -> bool {
        self.find == (self.str_to_find@.len() > 0)
    }

    /// Recomputes the derived `find` flag from the search term. Normalizing
    /// the root path is the caller's concern; every field but `find` is left
    /// as it was.
    pub fn update(&mut self)
        ensures
            final(self).find == (old(self).str_to_find@.len() > 0),
            final(self).silent == old(self).silent,
            final(self).path == old(self).path,
            final(self).str_to_find == old(self).str_to_find,
            final(self).wf(),
    {
        self.find = !self.str_to_find.as_str().is_empty();
    }

    /// Renders the configuration summary: the selected path, the silent
    /// flag, and the tracked term (or that search is disabled).
    pub fn show(&self) -> (msg: String)
        ensures
            msg@ == spec_show(*self),
    {
        let mut msg = String::new();
        msg.append("\nSelected path is: ");
        msg.append(self.path.as_str());
        if self.silent {
            msg.append("\nSilent mode is on.");
        } else {
            msg.append("\nSilent mode is off.");
        }
        msg.append("\n");
        if self.find {
            msg.append("Search system will track: '");
            msg.append(self.str_to_find.as_str());
            msg.append("'.");
        } else {
            msg.append("Search system is desactivated.");
        }
        proof {
            assert(msg@ =~= spec_show(*self));
        }
        msg
    }

    /// A copy of this configuration that points at `path` instead.
    pub fn clone_but_change_path(&self, path: String) -> (new: Self)
        ensures
            new.silent == self.silent,
            new.find == self.find,
            new.str_to_find@ == self.str_to_find@,
            new.path == path,
            self.wf() ==> new.wf(),
    {
        Options {
            silent: self.silent,
            path,
            find: self.find,
            str_to_find: self.str_to_find.clone(),
        }
    }
}

impl Default for Options {
    /// The starting configuration: current directory, verbose, empty term.
    fn default() -> (o: Self)
        ensures
            o.silent == false,
            o.path@ == "."@,
            o.find == false,
            o.str_to_find@ == Seq::<char>::empty(),
            o.wf(),
    {
        Options {
            silent: false,
            path: String::from_str("."),
            find: false,
            str_to_find: String::new(),
        }
    }
}

} // verus!
