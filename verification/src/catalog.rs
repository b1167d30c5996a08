//! The optional components a project can be given, and the manifest
//! dependencies each of them contributes.

use vstd::prelude::*;
use vstd::string::*;

verus! {

/// One dependency declaration of a manifest.
#[derive(Debug, Clone, Default)]
pub struct Dependency {
    /// The key under which the manifest lists it.
    pub name: String,
    /// The features switched on.
    pub features: Vec<String>,
    /// The version requirement.
    pub version: String,
    /// Whether the dependency is optional.
    pub optional: bool,
}

/// What a [`Dependency`] stands for.
pub struct DependencyView {
    pub name: Seq<char>,
    pub features: Seq<Seq<char>>,
    pub version: Seq<char>,
    pub optional: bool,
}

impl View for Dependency {
    type V = DependencyView;

    open spec fn view(&self) -> DependencyView {
        DependencyView {
            name: self.name@,
            features: self.features.deep_view(),
            version: self.version@,
            optional: self.optional,
        }
    }
}

/// The dependency that a bare name and version stand for: no features, not
/// optional.
pub open spec fn plain_dependency(name: Seq<char>, version: Seq<char>) -> DependencyView {
    DependencyView { name, features: Seq::empty(), version, optional: false }
}

impl<'a> vstd::std_specs::convert::FromSpecImpl<(&'a str, &'a str)> for Dependency {
    /// Two strings with the same characters need not be the same value, so
    /// no spec-level result is fixed here: `from` states its own `ensures`
    /// over the view.
    open spec fn obeys_from_spec() -> bool {
        false
    }

    open spec fn from_spec(v: (&'a str, &'a str)) -> Self {
        arbitrary()
    }
}

impl<'a> From<(&'a str, &'a str)> for Dependency {
    /// A dependency on `value.0` at version `value.1`, with no features and
    /// not optional.
    fn from(value: (&'a str, &'a str)) -> (dep: Self)
        ensures
            dep@ == plain_dependency(value.0@, value.1@),
    {
        let features: Vec<String> = Vec::new();
        assert(features.deep_view() =~= Seq::<Seq<char>>::empty());
        Dependency {
            name: String::from_str(value.0),
            version: String::from_str(value.1),
            features,
            optional: false,
        }
    }
}

/// An optional component: what the user sees of it and what it adds to the
/// manifest.
#[derive(Debug, Clone, Default)]
pub struct Component {
    /// The id by which a selection names it.
    pub id: String,
    /// The label shown in a choice list.
    pub label: String,
    /// The hint shown beside the label.
    pub hint: String,
    /// The dependencies it contributes, in order.
    pub dependencies: Vec<Dependency>,
}

/// What a [`Component`] stands for.
pub struct ComponentView {
    pub id: Seq<char>,
    pub label: Seq<char>,
    pub hint: Seq<char>,
    pub dependencies: Seq<DependencyView>,
}

impl View for Component {
    type V = ComponentView;

    open spec fn view(&self) -> ComponentView {
        ComponentView {
            id: self.id@,
            label: self.label@,
            hint: self.hint@,
            dependencies: self.dependencies.deep_view(),
        }
    }
}

impl DeepView for Dependency {
    type V = DependencyView;

    open spec fn deep_view(&self) -> DependencyView {
        self@
    }
}

impl DeepView for Component {
    type V = ComponentView;

    open spec fn deep_view(&self) -> ComponentView {
        self@
    }
}

/// Whether `i` is the position of the first component of `components`
/// whose id is `id`.
pub open spec fn is_first_with_id(components: Seq<ComponentView>, id: Seq<char>, i: int) -> bool {
    &&& 0 <= i < components.len()
    &&& components[i].id == id
    &&& forall|j: int| 0 <= j < i ==> components[j].id != id
}

/// The first component of `components` whose id is `id`, if there is one.
pub open spec fn find_component(components: Seq<ComponentView>, id: Seq<char>) -> Option<
    ComponentView,
> {
    if exists|i: int| is_first_with_id(components, id, i) {
        Some(components[choose|i: int| is_first_with_id(components, id, i)])
    } else {
        None
    }
}

/// At most one position is the first with a given id.
pub proof fn lemma_first_with_id_unique(
    components: Seq<ComponentView>,
    id: Seq<char>,
    i: int,
    j: int,
)
    requires
        is_first_with_id(components, id, i),
        is_first_with_id(components, id, j),
    ensures
        i == j,
{
    if i < j {
        assert(components[i].id != id);
    } else if j < i {
        assert(components[j].id != id);
    }
}

/// The components that a selection of `ids` stands for, in the order of the
/// ids: for each id the first component of `catalog` with that id, and
/// nothing for an id that `catalog` does not hold.
pub open spec fn selected(catalog: Seq<ComponentView>, ids: Seq<Seq<char>>) -> Seq<ComponentView>
    decreases ids.len(),
{
    if ids.len() == 0 {
        Seq::empty()
    } else {
        let earlier = selected(catalog, ids.drop_last());
        match find_component(catalog, ids.last()) {
            Some(component) => earlier.push(component),
            None => earlier,
        }
    }
}

/// The ordered list of components on offer.
#[derive(Debug, Clone, Default)]
pub struct ComponentCatalog {
    components: Vec<Component>,
}

impl View for ComponentCatalog {
    type V = Seq<ComponentView>;

    closed spec fn view(&self) -> Seq<ComponentView> {
        self.components.deep_view()
    }
}

/// The components that every catalog made by [`ComponentCatalog::builtin`]
/// holds.
pub open spec fn builtin_components() -> Seq<ComponentView> {
    seq![
        ComponentView {
            id: "sea-orm"@,
            label: "SeaORM"@,
            hint: "recommended"@,
            dependencies: seq![
                DependencyView {
                    name: "sea-orm"@,
                    features: seq!["tokio"@, "rustls"@, "sqlx-sqlite"@],
                    version: "0.12"@,
                    optional: false,
                },
            ],
        },
        ComponentView {
            id: "jwt"@,
            label: "JWT"@,
            hint: "https://github.com/keats/jsonwebtoken"@,
            dependencies: seq![plain_dependency("jsonwebtoken"@, "9"@)],
        },
        ComponentView {
            id: "websocket"@,
            label: "WebSocket"@,
            hint: "https://docs.rs/tokio-tungstenite"@,
            dependencies: seq![plain_dependency("tokio-tungstenite"@, "0.23.0"@)],
        },
    ]
}

impl ComponentCatalog {
    /// A catalog without components.
    pub fn new() -> (catalog: Self)
        ensures
            catalog@ == Seq::<ComponentView>::empty(),
    {
        let components: Vec<Component> = Vec::new();
        assert(components.deep_view() =~= Seq::<ComponentView>::empty());
        ComponentCatalog { components }
    }

    /// Appends `component` to the catalog.
    pub fn push(&mut self, component: Component)
        ensures
            final(self)@ == old(self)@.push(component@),
    {
        self.components.push(component);
        assert(self.components.deep_view() =~= old(self).components.deep_view().push(component@));
    }

    /// The catalog this tool ships with.
    pub fn builtin() -> (catalog: Self)
        ensures
            catalog@ == builtin_components(),
    {
        let mut sea_orm_features: Vec<String> = Vec::new();
        sea_orm_features.push(String::from_str("tokio"));
        sea_orm_features.push(String::from_str("rustls"));
        sea_orm_features.push(String::from_str("sqlx-sqlite"));
        assert(sea_orm_features.deep_view() =~= seq!["tokio"@, "rustls"@, "sqlx-sqlite"@]);
        let mut sea_orm_deps: Vec<Dependency> = Vec::new();
        sea_orm_deps.push(
            Dependency {
                name: String::from_str("sea-orm"),
                version: String::from_str("0.12"),
                features: sea_orm_features,
                optional: false,
            },
        );
        let mut jwt_deps: Vec<Dependency> = Vec::new();
        jwt_deps.push(Dependency::from(("jsonwebtoken", "9")));
        let mut websocket_deps: Vec<Dependency> = Vec::new();
        websocket_deps.push(Dependency::from(("tokio-tungstenite", "0.23.0")));
        assert(sea_orm_deps.deep_view() =~= builtin_components()[0].dependencies);
        assert(jwt_deps.deep_view() =~= builtin_components()[1].dependencies);
        assert(websocket_deps.deep_view() =~= builtin_components()[2].dependencies);
        let mut catalog = ComponentCatalog::new();
        catalog.push(
            Component {
                id: String::from_str("sea-orm"),
                label: String::from_str("SeaORM"),
                hint: String::from_str("recommended"),
                dependencies: sea_orm_deps,
            },
        );
        catalog.push(
            Component {
                id: String::from_str("jwt"),
                label: String::from_str("JWT"),
                hint: String::from_str("https://github.com/keats/jsonwebtoken"),
                dependencies: jwt_deps,
            },
        );
        catalog.push(
            Component {
                id: String::from_str("websocket"),
                label: String::from_str("WebSocket"),
                hint: String::from_str("https://docs.rs/tokio-tungstenite"),
                dependencies: websocket_deps,
            },
        );
        assert(catalog@ =~= builtin_components());
        catalog
    }

    /// All components, in the order in which they are offered.
    pub fn all(&self) -> (components: &Vec<Component>)
        ensures
            components.deep_view() == self@,
    {
        &self.components
    }

    /// The first component whose id is `id`; `None` where the catalog has
    /// none, so that a selection naming it is passed over.
    pub fn lookup(&self, id: &str) -> (found: Option<&Component>)
        ensures
            match found {
                Some(component) => find_component(self@, id@) == Some(component@),
                None => find_component(self@, id@).is_none(),
            },
    {
        let key = id.to_owned();
        let mut i: usize = 0;
        while i < self.components.len()
            invariant
                i <= self.components.len(),
                key@ == id@,
                forall|j: int| 0 <= j < i ==> self@[j].id != id@,
            decreases self.components.len() - i,
        {
            assert(self@[i as int] == self.components[i as int]@);
            if self.components[i].id == key {
                proof {
                    assert(is_first_with_id(self@, id@, i as int));
                    let k = choose|k: int| is_first_with_id(self@, id@, k);
                    lemma_first_with_id_unique(self@, id@, i as int, k);
                }
                return Some(&self.components[i]);
            }
            i += 1;
        }
        assert(forall|k: int| !is_first_with_id(self@, id@, k));
        None
    }
}

impl ComponentCatalog {
    /// The components that `ids` select, in the order of `ids`. An id that
    /// the catalog does not hold selects nothing.
    pub fn select<'a>(&'a self, ids: &[String]) -> (chosen: Vec<&'a Component>)
        ensures
            chosen.deep_view() == selected(self@, ids.deep_view()),
    {
        let mut chosen: Vec<&'a Component> = Vec::new();
        let mut i: usize = 0;
        assert(ids.deep_view().take(0) =~= Seq::<Seq<char>>::empty());
        assert(chosen.deep_view() =~= Seq::<ComponentView>::empty());
        while i < ids.len()
            invariant
                i <= ids.len(),
                chosen.deep_view() == selected(self@, ids.deep_view().take(i as int)),
            decreases ids.len() - i,
        {
            let ghost before = chosen.deep_view();
            let ghost prefix = ids.deep_view().take(i as int + 1);
            assert(prefix.drop_last() =~= ids.deep_view().take(i as int));
            assert(prefix.last() == ids[i as int]@);
            match self.lookup(ids[i].as_str()) {
                Some(component) => {
                    chosen.push(component);
                    assert(chosen.deep_view() =~= before.push(component@));
                },
                None => {},
            }
            i += 1;
        }
        assert(ids.deep_view().take(i as int) =~= ids.deep_view());
        chosen
    }
}

} // verus!
