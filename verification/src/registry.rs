//! The templates a project can start from, and the repository each one is
//! cloned from.

use vstd::prelude::*;
use vstd::string::*;
use crate::error::CliError;

verus! {

/// A template and the location of its repository.
#[derive(Debug, Clone)]
pub struct TemplateEntry {
    pub id: String,
    pub repository_url: String,
}

/// The templates on offer, each id listed once.
#[derive(Debug)]
pub struct TemplateRegistry {
    entries: Vec<TemplateEntry>,
}

/// Whether `entries` lists `id` at position `i`.
pub open spec fn lists_at(entries: Seq<TemplateEntry>, id: Seq<char>, i: int) -> bool {
    0 <= i < entries.len() && entries[i].id@ == id
}

/// Whether no id occurs twice in `entries`.
pub open spec fn ids_distinct(entries: Seq<TemplateEntry>) -> bool {
    forall|i: int, j: int|
        0 <= i < entries.len() && 0 <= j < entries.len() && entries[i].id@ == entries[j].id@ ==> i
            == j
}

/// The mapping from id to repository location that `entries` lists.
pub open spec fn listed(entries: Seq<TemplateEntry>) -> Map<Seq<char>, Seq<char>> {
    Map::new(
        |id: Seq<char>| exists|i: int| lists_at(entries, id, i),
        |id: Seq<char>| entries[choose|i: int| lists_at(entries, id, i)].repository_url@,
    )
}

/// The mapping that every registry made by [`TemplateRegistry::builtin`]
/// holds.
pub open spec fn builtin_templates() -> Map<Seq<char>, Seq<char>> {
    Map::<Seq<char>, Seq<char>>::empty().insert(
        "axum"@,
        "https://github.com/kingzcheung/nana-template-axum"@,
    ).insert("salvo"@, "todo"@).insert("actix"@, "todo"@)
}

/// Writing an entry at position `at`, over the only entry with its id or
/// behind all entries where none has its id, lists that id with the new
/// location and leaves every other id as it was.
proof fn lemma_listed_after_write(before: Seq<TemplateEntry>, after: Seq<TemplateEntry>, at: int)
    requires
        ids_distinct(before),
        0 <= at < after.len(),
        after.len() == before.len() || (after.len() == before.len() + 1 && at == before.len()),
        forall|j: int| 0 <= j < before.len() && j != at ==> after[j] == before[j],
        at < before.len() ==> before[at].id@ == after[at].id@,
        forall|j: int| lists_at(before, after[at].id@, j) ==> j == at,
    ensures
        ids_distinct(after),
        listed(after) == listed(before).insert(after[at].id@, after[at].repository_url@),
{
    let id = after[at].id@;
    let written = listed(before).insert(id, after[at].repository_url@);
    assert(lists_at(after, id, at));
    assert forall|a: int, b: int|
        0 <= a < after.len() && 0 <= b < after.len() && after[a].id@ == after[b].id@ implies a
        == b by {
        if a != at && b == at {
            assert(lists_at(before, id, a));
        }
        if b != at && a == at {
            assert(lists_at(before, id, b));
        }
    }
    assert forall|k: Seq<char>| #[trigger]
        listed(after).dom().contains(k) == written.dom().contains(k) && (listed(
            after,
        ).dom().contains(k) ==> listed(after)[k] == written[k]) by {
        if k != id {
            if listed(before).dom().contains(k) {
                let j = choose|j: int| lists_at(before, k, j);
                assert(lists_at(after, k, j));
            }
            if listed(after).dom().contains(k) {
                let j = choose|j: int| lists_at(after, k, j);
                assert(lists_at(before, k, j));
                let j0 = choose|j: int| lists_at(before, k, j);
                assert(j0 == j);
            }
        } else {
            let j = choose|j: int| lists_at(after, id, j);
            assert(j == at);
        }
    }
    assert(listed(after) =~= written);
}

impl View for TemplateRegistry {
    type V = Map<Seq<char>, Seq<char>>;

    closed spec fn view(&self) -> Map<Seq<char>, Seq<char>> {
        listed(self.entries@)
    }
}

impl TemplateRegistry {
    #[verifier::type_invariant]
    spec fn well_formed(self) -> bool {
        ids_distinct(self.entries@)
    }

    /// A registry without templates.
    pub fn new() -> (registry: Self)
        ensures
            registry@ == Map::<Seq<char>, Seq<char>>::empty(),
    {
        let entries: Vec<TemplateEntry> = Vec::new();
        let registry = TemplateRegistry { entries };
        assert(registry@ =~= Map::<Seq<char>, Seq<char>>::empty());
        registry
    }

    /// The position at which `id` is listed, if it is.
    fn position(&self, id: &String) -> (found: Option<usize>)
        ensures
            match found {
                Some(i) => lists_at(self.entries@, id@, i as int),
                None => forall|i: int| !lists_at(self.entries@, id@, i),
            },
    {
        let mut i: usize = 0;
        while i < self.entries.len()
            invariant
                i <= self.entries.len(),
                forall|j: int| 0 <= j < i ==> !lists_at(self.entries@, id@, j),
            decreases self.entries.len() - i,
        {
            if self.entries[i].id == *id {
                return Some(i);
            }
            i += 1;
        }
        None
    }

    /// Lists `id` with `repository_url`, in place of what `id` stood for
    /// before.
    pub fn register(&mut self, id: &str, repository_url: &str)
        ensures
            final(self)@ == old(self)@.insert(id@, repository_url@),
    {
        proof {
            use_type_invariant(&*self);
        }
        let entry = TemplateEntry {
            id: String::from_str(id),
            repository_url: String::from_str(repository_url),
        };
        let ghost before = self.entries@;
        let found = self.position(&entry.id);
        let mut entries: Vec<TemplateEntry> = Vec::new();
        std::mem::swap(&mut self.entries, &mut entries);
        match found {
            Some(i) => {
                entries.set(i, entry);
                proof {
                    lemma_listed_after_write(before, entries@, i as int);
                }
            },
            None => {
                entries.push(entry);
                proof {
                    lemma_listed_after_write(before, entries@, before.len() as int);
                }
            },
        }
        std::mem::swap(&mut self.entries, &mut entries);
    }

    /// The registry this tool ships with.
    pub fn builtin() -> (registry: Self)
        ensures
            registry@ == builtin_templates(),
    {
        let mut registry = TemplateRegistry::new();
        registry.register("axum", "https://github.com/kingzcheung/nana-template-axum");
        registry.register("salvo", "todo");
        registry.register("actix", "todo");
        registry
    }

    /// The repository location registered for `template_id`.
    pub fn resolve(&self, template_id: &str) -> (resolved: Result<String, CliError>)
        ensures
            match resolved {
                Ok(url) => self@.contains_key(template_id@) && url@ == self@[template_id@],
                Err(e) => !self@.contains_key(template_id@) && e == CliError::UnknownTemplate,
            },
    {
        proof {
            use_type_invariant(self);
        }
        let key = template_id.to_owned();
        match self.position(&key) {
            Some(i) => {
                proof {
                    let j = choose|j: int| lists_at(self.entries@, template_id@, j);
                    assert(lists_at(self.entries@, template_id@, j));
                }
                Ok(self.entries[i].repository_url.clone())
            },
            None => Err(CliError::UnknownTemplate),
        }
    }
}

} // verus!
