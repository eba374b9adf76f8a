use vstd::prelude::*;
use crate::context::{binding_name, is_attribute_binding, Binding, BindingView, Command, CommandView, Context, DrawCall, ObjectKind};
use crate::error::Error;

verus! {

/// The views of a list of names.
pub open spec fn name_views(names: Seq<String>) -> Seq<Seq<char>> {
    names.map_values(|s: String| s@)
}

/// Some binding of `bs` feeds the attribute `name`.
pub open spec fn binds_attribute(bs: Seq<BindingView>, name: Seq<char>) -> bool {
    exists|j: int| 0 <= j < bs.len() && is_attribute_binding(#[trigger] bs[j]) && binding_name(bs[j]) == name
}

/// Some binding of `bs` feeds the uniform (or block, or sampler) `name`.
pub open spec fn binds_uniform(bs: Seq<BindingView>, name: Seq<char>) -> bool {
    exists|j: int| 0 <= j < bs.len() && !is_attribute_binding(#[trigger] bs[j]) && binding_name(bs[j]) == name
}

/// The views of a list of bindings.
pub open spec fn views(bs: Seq<Binding>) -> Seq<BindingView> {
    bs.map_values(|b: Binding| b@)
}

/// Whether `name` is one of `names`.
pub fn name_in(names: &Vec<String>, name: &String) -> (r: bool)
    ensures
        r == name_views(names@).contains(name@),
{
    let mut i: usize = 0;
    while i < names.len()
        invariant
            i <= names@.len(),
            forall|k: int| 0 <= k < i ==> names@[k]@ != name@,
        decreases names@.len() - i,
    {
        if names[i] == *name {
            assert(name_views(names@)[i as int] == name@);
            return true;
        }
        i = i + 1;
    }
    assert(!name_views(names@).contains(name@)) by {
        assert forall|k: int| 0 <= k < name_views(names@).len() implies name_views(names@)[k] != name@ by {
            assert(names@[k]@ != name@);
        }
    }
    false
}

/// Whether some binding of `bs` of the given kind is called `name`.
fn bound_in(bs: &Vec<Binding>, name: &String, attribute: bool) -> (r: bool)
    ensures
        attribute ==> r == binds_attribute(views(bs@), name@),
        !attribute ==> r == binds_uniform(views(bs@), name@),
{
    let mut j: usize = 0;
    while j < bs.len()
        invariant
            j <= bs@.len(),
            forall|k: int| 0 <= k < j ==> !(is_attribute_binding(#[trigger] views(bs@)[k]) == attribute && binding_name(views(bs@)[k]) == name@),
        decreases bs@.len() - j,
    {
        if bs[j].is_attribute() == attribute && *bs[j].name() == *name {
            assert(views(bs@)[j as int] == bs@[j as int]@);
            return true;
        }
        j = j + 1;
    }
    false
}

/// A compiled and linked shader program, with the names of the attributes and
/// uniforms (blocks and samplers included) that the driver found active.
pub struct Program {
    id: u32,
    attributes: Vec<String>,
    uniforms: Vec<String>,
}

impl Program {
    pub closed spec fn id_spec(&self) -> u32 {
        self.id
    }

    /// The active attribute names.
    pub closed spec fn attribute_names(&self) -> Seq<Seq<char>> {
        name_views(self.attributes@)
    }

    /// The active uniform, uniform block and sampler names.
    pub closed spec fn uniform_names(&self) -> Seq<Seq<char>> {
        name_views(self.uniforms@)
    }

    /// Whether the program reads the input that binding `b` feeds.
    pub open spec fn accepts(&self, b: BindingView) -> bool {
        if is_attribute_binding(b) {
            self.attribute_names().contains(binding_name(b))
        } else {
            self.uniform_names().contains(binding_name(b))
        }
    }

    /// `bs` feeds every attribute and uniform that the program requires.
    pub open spec fn complete(&self, bs: Seq<BindingView>) -> bool {
        &&& forall|n: Seq<char>| #[trigger] self.attribute_names().contains(n) ==> binds_attribute(bs, n)
        &&& forall|n: Seq<char>| #[trigger] self.uniform_names().contains(n) ==> binds_uniform(bs, n)
    }

    /// The commands that hand the bindings of `bs` that the program reads to
    /// it, in order; the others are left out.
    pub open spec fn bind_commands(&self, bs: Seq<BindingView>) -> Seq<CommandView>
        decreases bs.len(),
    {
        if bs.len() == 0 {
            Seq::empty()
        } else {
            let prev = self.bind_commands(bs.drop_last());
            if self.accepts(bs.last()) {
                prev.push(CommandView::Bind { program: self.id_spec(), binding: bs.last() })
            } else {
                prev
            }
        }
    }

    pub fn id(&self) -> (r: u32)
        ensures
            r == self.id_spec(),
    {
        self.id
    }

    /// Makes a program from its two stages and the outcome of linking them:
    /// the active attribute and uniform names, or the driver's log. On a
    /// failed link nothing is created.
    pub fn from_link(
        context: &mut Context,
        vertex_source: String,
        fragment_source: String,
        link: Result<(Vec<String>, Vec<String>), String>,
    ) -> (r: Result<Program, Error>)
        requires
            old(context).wf(),
        ensures
            final(context).wf(),
            link is Err ==> r == Err::<Program, Error>(Error::ShaderCompileError { message: link->Err_0 })
                && final(context).log() == old(context).log() && final(context).live() == old(context).live(),
            link is Ok ==> (r is Ok <==> old(context).names_left() > 0),
            match r {
                Ok(p) => {
                    &&& final(context).names_left() == old(context).names_left() - 1
                    &&& link is Ok
                    &&& p.attribute_names() == name_views(link->Ok_0.0@)
                    &&& p.uniform_names() == name_views(link->Ok_0.1@)
                    &&& !old(context).live().contains((ObjectKind::Program, p.id_spec()))
                    &&& final(context).live() == old(context).live().insert((ObjectKind::Program, p.id_spec()))
                    &&& final(context).log() == old(context).log().push(
                        CommandView::Create { kind: ObjectKind::Program, id: p.id_spec() },
                    ).push(CommandView::ProgramSource {
                        id: p.id_spec(),
                        vertex_source: vertex_source@,
                        fragment_source: fragment_source@,
                    })
                },
                Err(e) => {
                    &&& (e is DeviceError || e is ShaderCompileError)
                    &&& final(context).live() == old(context).live()
                    &&& final(context).log() == old(context).log()
                },
            },
    {
        match link {
            Err(message) => Err(Error::ShaderCompileError { message }),
            Ok((attributes, uniforms)) => {
                let id = context.create(ObjectKind::Program)?;
                context.issue(Command::ProgramSource { id, vertex_source, fragment_source });
                Ok(Program { id, attributes, uniforms })
            },
        }
    }

    /// Whether the program reads the attribute `name`.
    pub fn requires_attribute(&self, name: &String) -> (r: bool)
        ensures
            r == self.attribute_names().contains(name@),
    {
        name_in(&self.attributes, name)
    }

    /// Whether the program reads the uniform, block or sampler `name`.
    pub fn requires_uniform(&self, name: &String) -> (r: bool)
        ensures
            r == self.uniform_names().contains(name@),
    {
        name_in(&self.uniforms, name)
    }

    /// The first required input that `bindings` does not feed, if any.
    fn first_missing(&self, bindings: &Vec<Binding>) -> (r: Option<String>)
        ensures
            r is None <==> self.complete(views(bindings@)),
            r matches Some(n) ==> (self.attribute_names().contains(n@) && !binds_attribute(views(bindings@), n@))
                || (self.uniform_names().contains(n@) && !binds_uniform(views(bindings@), n@)),
    {
        let mut i: usize = 0;
        while i < self.attributes.len()
            invariant
                i <= self.attributes@.len(),
                forall|k: int| 0 <= k < i ==> binds_attribute(views(bindings@), #[trigger] self.attributes@[k]@),
            decreases self.attributes@.len() - i,
        {
            if !bound_in(bindings, &self.attributes[i], true) {
                assert(self.attribute_names()[i as int] == self.attributes@[i as int]@);
                assert(self.attribute_names().contains(self.attributes@[i as int]@));
                return Some(self.attributes[i].clone());
            }
            i = i + 1;
        }
        let mut j: usize = 0;
        while j < self.uniforms.len()
            invariant
                j <= self.uniforms@.len(),
                forall|k: int| 0 <= k < self.attributes@.len() ==> binds_attribute(views(bindings@), #[trigger] self.attributes@[k]@),
                forall|k: int| 0 <= k < j ==> binds_uniform(views(bindings@), #[trigger] self.uniforms@[k]@),
            decreases self.uniforms@.len() - j,
        {
            if !bound_in(bindings, &self.uniforms[j], false) {
                assert(self.uniform_names()[j as int] == self.uniforms@[j as int]@);
                assert(self.uniform_names().contains(self.uniforms@[j as int]@));
                return Some(self.uniforms[j].clone());
            }
            j = j + 1;
        }
        assert forall|n: Seq<char>| #[trigger] self.attribute_names().contains(n) implies binds_attribute(views(bindings@), n) by {
            let k = choose|k: int| 0 <= k < self.attribute_names().len() && self.attribute_names()[k] == n;
            assert(binds_attribute(views(bindings@), self.attributes@[k]@));
        }
        assert forall|n: Seq<char>| #[trigger] self.uniform_names().contains(n) implies binds_uniform(views(bindings@), n) by {
            let k = choose|k: int| 0 <= k < self.uniform_names().len() && self.uniform_names()[k] == n;
            assert(binds_uniform(views(bindings@), self.uniforms@[k]@));
        }
        None
    }

    /// Checks that `bindings` feed every input the program requires, then
    /// hands the program those bindings it reads, in order, and issues `call`.
    /// When an input is missing it fails with its name and issues nothing.
    pub fn draw(&self, context: &mut Context, bindings: Vec<Binding>, call: DrawCall) -> (r: Result<(), Error>)
        requires
            old(context).wf(),
        ensures
            final(context).wf(),
            final(context).live() == old(context).live(),
            r is Ok <==> self.complete(views(bindings@)),
            final(context).names_left() == old(context).names_left(),
            r is Ok ==> final(context).log() == old(context).log() + self.bind_commands(views(bindings@)).push(
                CommandView::Draw { program: self.id_spec(), call },
            ),
            r is Err ==> final(context).log() == old(context).log(),
            r matches Err(e) ==> e matches Error::MissingBinding { name } && (
                (self.attribute_names().contains(name@) && !binds_attribute(views(bindings@), name@))
                || (self.uniform_names().contains(name@) && !binds_uniform(views(bindings@), name@))),
    {
        if let Some(name) = self.first_missing(&bindings) {
            return Err(Error::MissingBinding { name });
        }
        let ghost all = bindings@;
        let mut rest = bindings;
        let mut i: usize = 0;
        let n = rest.len();
        while i < n
            invariant
                context.wf(),
                context.live() == old(context).live(),
                context.names_left() == old(context).names_left(),
                n == all.len(),
                i <= n,
                rest@ == all.subrange(i as int, n as int),
                context.log() == old(context).log() + self.bind_commands(views(all.subrange(0, i as int))),
            decreases n - i,
        {
            let b = rest.remove(0);
            assert(b == all[i as int]);
            assert(views(all.subrange(0, i + 1)).drop_last() =~= views(all.subrange(0, i as int)));
            assert(views(all.subrange(0, i + 1)).last() == b@);
            let accepted = if b.is_attribute() {
                self.requires_attribute(b.name())
            } else {
                self.requires_uniform(b.name())
            };
            if accepted {
                context.issue(Command::Bind { program: self.id, binding: b });
            }
            i = i + 1;
            assert(rest@ =~= all.subrange(i as int, n as int));
            assert(context.log() =~= old(context).log() + self.bind_commands(views(all.subrange(0, i as int))));
        }
        assert(all.subrange(0, n as int) =~= all);
        context.issue(Command::Draw { program: self.id, call });
        assert(context.log() =~= old(context).log() + self.bind_commands(views(all)).push(
            CommandView::Draw { program: self.id, call }));
        Ok(())
    }

    /// Releases the program, once.
    pub fn destroy(self, context: &mut Context)
        requires
            old(context).wf(),
            old(context).live().contains((ObjectKind::Program, self.id_spec())),
        ensures
            final(context).wf(),
            final(context).live() == old(context).live().remove((ObjectKind::Program, self.id_spec())),
            final(context).names_left() == old(context).names_left(),
            final(context).log() == old(context).log().push(CommandView::Delete { kind: ObjectKind::Program, id: self.id_spec() }),
    {
        context.delete(ObjectKind::Program, self.id);
    }
}

/// Linked programs, at most one per pair of vertex and fragment stage, so that
/// meshes drawn with the same material share one program.
pub struct ProgramCache {
    entries: Vec<(String, String, Program)>,
}

impl ProgramCache {
    /// The stored program of each pair of stages.
    pub closed spec fn programs(&self) -> Map<(Seq<char>, Seq<char>), Program> {
        Map::new(
            |k: (Seq<char>, Seq<char>)| exists|i: int| 0 <= i < self.entries@.len() && #[trigger] self.key(i) == k,
            |k: (Seq<char>, Seq<char>)| self.entries@[choose|i: int| 0 <= i < self.entries@.len() && #[trigger] self.key(i) == k].2,
        )
    }

    closed spec fn key(&self, i: int) -> (Seq<char>, Seq<char>) {
        (self.entries@[i].0@, self.entries@[i].1@)
    }

    pub closed spec fn wf(&self) -> bool {
        forall|i: int, j: int| 0 <= i < j < self.entries@.len() ==> #[trigger] self.key(i) != #[trigger] self.key(j)
    }

    pub fn new() -> (r: ProgramCache)
        ensures
            r.wf(),
            r.programs() == Map::<(Seq<char>, Seq<char>), Program>::empty(),
    {
        let r = ProgramCache { entries: Vec::new() };
        assert(r.programs() =~= Map::<(Seq<char>, Seq<char>), Program>::empty());
        r
    }

    fn position(&self, vertex_source: &String, fragment_source: &String) -> (r: Option<usize>)
        requires
            self.wf(),
        ensures
            r matches Some(i) ==> i < self.entries@.len() && self.key(i as int) == (vertex_source@, fragment_source@),
            r is None ==> !self.programs().contains_key((vertex_source@, fragment_source@)),
    {
        let mut i: usize = 0;
        while i < self.entries.len()
            invariant
                i <= self.entries@.len(),
                forall|k: int| 0 <= k < i ==> #[trigger] self.key(k) != (vertex_source@, fragment_source@),
            decreases self.entries@.len() - i,
        {
            if self.entries[i].0 == *vertex_source && self.entries[i].1 == *fragment_source {
                return Some(i);
            }
            i = i + 1;
        }
        None
    }

    /// The program linked from this pair of stages, if one is stored.
    pub fn get(&self, vertex_source: &String, fragment_source: &String) -> (r: Option<&Program>)
        requires
            self.wf(),
        ensures
            r is Some <==> self.programs().contains_key((vertex_source@, fragment_source@)),
            r matches Some(p) ==> *p == self.programs()[(vertex_source@, fragment_source@)],
    {
        match self.position(vertex_source, fragment_source) {
            Some(i) => {
                let ghost k = (vertex_source@, fragment_source@);
                assert(self.programs().contains_key(k));
                let ghost j = choose|j: int| 0 <= j < self.entries@.len() && #[trigger] self.key(j) == k;
                assert(j == i as int);
                Some(&self.entries[i].2)
            },
            None => None,
        }
    }

    /// Stores `program` for the pair of stages it was linked from. Where the
    /// pair already has a program nothing changes and `program` is handed back.
    pub fn insert(&mut self, vertex_source: String, fragment_source: String, program: Program) -> (r: Option<Program>)
        requires
            old(self).wf(),
        ensures
            final(self).wf(),
            old(self).programs().contains_key((vertex_source@, fragment_source@)) ==> r == Some(program)
                && final(self).programs() == old(self).programs(),
            !old(self).programs().contains_key((vertex_source@, fragment_source@)) ==> r is None
                && final(self).programs() == old(self).programs().insert((vertex_source@, fragment_source@), program),
    {
        match self.position(&vertex_source, &fragment_source) {
            Some(_) => Some(program),
            None => {
                let ghost k = (vertex_source@, fragment_source@);
                let ghost before = self.programs();
                self.entries.push((vertex_source, fragment_source, program));
                let ghost n = self.entries@.len() - 1;
                assert(self.key(n) == k);
                assert forall|i: int| 0 <= i < n implies #[trigger] self.key(i) == old(self).key(i) by {}
                assert forall|i: int| 0 <= i < n implies #[trigger] self.key(i) != k by {
                    assert(old(self).key(i) != k);
                }
                assert forall|kk: (Seq<char>, Seq<char>)| #[trigger] self.programs().contains_key(kk) == before.insert(k, program).contains_key(kk) by {
                    if kk != k && before.contains_key(kk) {
                        let j = choose|j: int| 0 <= j < old(self).entries@.len() && #[trigger] old(self).key(j) == kk;
                        assert(self.key(j) == kk);
                    }
                }
                assert forall|kk: (Seq<char>, Seq<char>)| #[trigger] self.programs().contains_key(kk) implies self.programs()[kk] == before.insert(k, program)[kk] by {
                    let j = choose|j: int| 0 <= j < self.entries@.len() && #[trigger] self.key(j) == kk;
                    if kk == k {
                        assert(j == n);
                    } else {
                        let j0 = choose|j: int| 0 <= j < old(self).entries@.len() && #[trigger] old(self).key(j) == kk;
                        assert(self.key(j0) == kk);
                        assert(j == j0);
                    }
                }
                assert(self.programs() =~= before.insert(k, program));
                None
            },
        }
    }
}

} // verus!
