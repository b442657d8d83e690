use vstd::prelude::*;
use vstd::string::StringExecFns;

use crate::error::SceneError;

verus! {

/// The variable environment a scene's repetition patterns build up, read as a
/// map from variable name to current value; a later binding shadows an
/// earlier one of the same name.
pub open spec fn vars_map_of(entries: Seq<(String, i32)>) -> Map<Seq<char>, i32>
    decreases entries.len(),
{
    if entries.len() == 0 {
        Map::empty()
    } else {
        vars_map_of(entries.drop_last()).insert(entries.last().0@, entries.last().1)
    }
}

/// The material library a scene builds up, read as a map from material name
/// to the handle under which the realized material is stored; registering a
/// name again moves it to the fresh handle.
pub open spec fn handles_map_of(names: Seq<String>) -> Map<Seq<char>, int>
    decreases names.len(),
{
    if names.len() == 0 {
        Map::empty()
    } else {
        handles_map_of(names.drop_last()).insert(names.last()@, names.len() - 1)
    }
}

proof fn lemma_vars_map_found(entries: Seq<(String, i32)>, i: int)
    requires
        0 <= i < entries.len(),
        forall|j: int| i < j < entries.len() ==> (#[trigger] entries[j]).0@ != entries[i].0@,
    ensures
        vars_map_of(entries).contains_key(entries[i].0@),
        vars_map_of(entries)[entries[i].0@] == entries[i].1,
    decreases entries.len(),
{
    if i < entries.len() - 1 {
        assert(entries.drop_last()[i] == entries[i]);
        lemma_vars_map_found(entries.drop_last(), i);
    }
}

proof fn lemma_vars_map_absent(entries: Seq<(String, i32)>, k: Seq<char>)
    requires
        forall|j: int| 0 <= j < entries.len() ==> (#[trigger] entries[j]).0@ != k,
    ensures
        !vars_map_of(entries).contains_key(k),
    decreases entries.len(),
{
    if entries.len() > 0 {
        lemma_vars_map_absent(entries.drop_last(), k);
    }
}

proof fn lemma_handles_map_found(names: Seq<String>, i: int)
    requires
        0 <= i < names.len(),
        forall|j: int| i < j < names.len() ==> (#[trigger] names[j])@ != names[i]@,
    ensures
        handles_map_of(names).contains_key(names[i]@),
        handles_map_of(names)[names[i]@] == i,
    decreases names.len(),
{
    if i < names.len() - 1 {
        assert(names.drop_last()[i] == names[i]);
        lemma_handles_map_found(names.drop_last(), i);
    }
}

proof fn lemma_handles_map_absent(names: Seq<String>, k: Seq<char>)
    requires
        forall|j: int| 0 <= j < names.len() ==> (#[trigger] names[j])@ != k,
    ensures
        !handles_map_of(names).contains_key(k),
    decreases names.len(),
{
    if names.len() > 0 {
        lemma_handles_map_absent(names.drop_last(), k);
    }
}

/// Builds a scene out of its declarative description. The loader keeps the
/// bookkeeping the description language needs: the repetition patterns'
/// variable environment and the library of named, shared materials. The
/// realized objects themselves are handed out by the caller under the
/// handles this type assigns.
pub struct SceneLoader {
    scene_path: String,
    pattern_vars: Vec<(String, i32)>,
    material_names: Vec<String>,
}

impl SceneLoader {
    /// The path of the scene description file, as given at construction.
    pub closed spec fn path_spec(&self) -> Seq<char> {
        self.scene_path@
    }

    /// The pattern-variable environment currently in scope.
    pub closed spec fn vars(&self) -> Map<Seq<char>, i32> {
        vars_map_of(self.pattern_vars@)
    }

    /// The handle each registered material name currently resolves to.
    pub closed spec fn materials(&self) -> Map<Seq<char>, int> {
        handles_map_of(self.material_names@)
    }

    /// How many material registrations have been made.
    pub closed spec fn material_count(&self) -> int {
        self.material_names@.len() as int
    }

    /// A fresh loader for the description file at `path`: no pattern
    /// variable is in scope and no material is registered.
    pub fn new(path: &str) -> (r: Self)
        ensures
            r.path_spec() == path@,
            r.vars() == Map::<Seq<char>, i32>::empty(),
            r.materials() == Map::<Seq<char>, int>::empty(),
            r.material_count() == 0,
    {
        SceneLoader {
            scene_path: String::from_str(path),
            pattern_vars: Vec::new(),
            material_names: Vec::new(),
        }
    }

    /// The path of the scene description file.
    pub fn scene_path(&self) -> (r: &String)
        ensures
            r@ == self.path_spec(),
    {
        &self.scene_path
    }

    /// Brings a pattern variable into scope, shadowing any earlier binding
    /// of the same name.
    pub fn set_pattern_var(&mut self, name: String, value: i32)
        ensures
            final(self).vars() == old(self).vars().insert(name@, value),
            final(self).materials() == old(self).materials(),
            final(self).material_count() == old(self).material_count(),
            final(self).path_spec() == old(self).path_spec(),
    {
        let ghost before = self.pattern_vars@;
        self.pattern_vars.push((name, value));
        proof {
            assert(self.pattern_vars@.drop_last() =~= before);
        }
    }

    /// Looks a pattern variable up, returning the innermost binding, or the
    /// variable-not-found error exactly when no binding is in scope.
    pub fn pattern_var(&self, name: &String) -> (r: Result<i32, SceneError>)
        ensures
            self.vars().contains_key(name@) ==> r == Ok::<i32, SceneError>(self.vars()[name@]),
            !self.vars().contains_key(name@) ==> (r matches Err(e)
                && e matches SceneError::VariableNotFound { name: n } && n@ == name@),
    {
        let n = self.pattern_vars.len();
        let mut i: usize = n;
        while i > 0
            invariant
                i <= n,
                n == self.pattern_vars@.len(),
                forall|j: int|
                    i <= j < n ==> (#[trigger] self.pattern_vars@[j]).0@ != name@,
            decreases i,
        {
            i = i - 1;
            if self.pattern_vars[i].0 == *name {
                proof {
                    lemma_vars_map_found(self.pattern_vars@, i as int);
                }
                return Ok(self.pattern_vars[i].1);
            }
        }
        proof {
            lemma_vars_map_absent(self.pattern_vars@, name@);
        }
        Err(SceneError::VariableNotFound { name: name.clone() })
    }

    /// Registers a material name and returns the fresh handle its realized
    /// material is to be stored under. Registering a name that is already
    /// taken re-binds it, so the newest registration wins.
    pub fn register_material(&mut self, name: String) -> (r: usize)
        ensures
            r == old(self).material_count(),
            final(self).material_count() == old(self).material_count() + 1,
            final(self).materials() == old(self).materials().insert(name@, r as int),
            final(self).vars() == old(self).vars(),
            final(self).path_spec() == old(self).path_spec(),
    {
        let ghost before = self.material_names@;
        let handle = self.material_names.len();
        self.material_names.push(name);
        proof {
            assert(self.material_names@.drop_last() =~= before);
        }
        handle
    }

    /// Resolves a shared-material reference to the handle it was registered
    /// under, or the material-not-defined error exactly when the name was
    /// never registered.
    pub fn material_handle(&self, name: &String) -> (r: Result<usize, SceneError>)
        ensures
            self.materials().contains_key(name@) ==> r == Ok::<usize, SceneError>(
                self.materials()[name@] as usize,
            ),
            !self.materials().contains_key(name@) ==> (r matches Err(e)
                && e matches SceneError::MaterialNotDefined { name: n } && n@ == name@),
            r matches Ok(h) ==> h < self.material_count(),
    {
        let n = self.material_names.len();
        let mut i: usize = n;
        while i > 0
            invariant
                i <= n,
                n == self.material_names@.len(),
                forall|j: int| i <= j < n ==> (#[trigger] self.material_names@[j])@ != name@,
            decreases i,
        {
            i = i - 1;
            if self.material_names[i] == *name {
                proof {
                    lemma_handles_map_found(self.material_names@, i as int);
                }
                return Ok(i);
            }
        }
        proof {
            lemma_handles_map_absent(self.material_names@, name@);
        }
        Err(SceneError::MaterialNotDefined { name: name.clone() })
    }
}

/// How many values the arithmetic progression `start, start + step, ...`
/// takes strictly below `end`.
pub open spec fn step_count(start: int, end: int, step: int) -> int
    decreases (if start < end { end - start } else { 0 }),
        when step >= 1
{
    if start >= end {
        0
    } else {
        1 + step_count(start + step, end, step)
    }
}

/// A pattern's range list is well formed when it holds one, two or three
/// values, and a given step is not zero.
pub open spec fn range_desc_valid(r: Seq<i32>) -> bool {
    &&& 1 <= r.len() <= 3
    &&& (r.len() == 3 ==> r[2] != 0)
}

/// The first value a well-formed range list describes.
pub open spec fn range_start(r: Seq<i32>) -> int {
    if r.len() == 1 {
        0
    } else {
        r[0] as int
    }
}

/// The exclusive upper bound a well-formed range list describes.
pub open spec fn range_end(r: Seq<i32>) -> int {
    if r.len() == 1 {
        r[0] as int
    } else {
        r[1] as int
    }
}

/// The step a well-formed range list describes; a negative step stands for
/// its absolute value.
pub open spec fn range_step(r: Seq<i32>) -> int {
    if r.len() == 3 {
        vstd::math::abs(r[2] as int) as int
    } else {
        1
    }
}

/// Expands a repetition pattern's range list into the values its variable
/// takes: `[end]` counts from zero, `[start, end]` by ones, and
/// `[start, end, step]` by the step's absolute value, always strictly below
/// `end`. Any other list is rejected as malformed, a zero step too.
pub fn expand_pattern_range(range: &Vec<i32>) -> (r: Result<Vec<i32>, SceneError>)
    ensures
        range_desc_valid(range@) ==> (r matches Ok(v)
            && v@.len() == step_count(range_start(range@), range_end(range@), range_step(range@))
            && (forall|i: int|
                0 <= i < v@.len() ==> #[trigger] v@[i]
                    == range_start(range@) + i * range_step(range@))
            && (forall|i: int| 0 <= i < v@.len() ==> #[trigger] v@[i] < range_end(range@))),
        !range_desc_valid(range@) ==> r == Err::<Vec<i32>, SceneError>(
            SceneError::MalformedPatternRange,
        ),
{
    let (start, end, step): (i32, i32, i32) = match range.len() {
        1 => (0, range[0], 1),
        2 => (range[0], range[1], 1),
        3 => {
            if range[2] == 0 {
                return Err(SceneError::MalformedPatternRange);
            }
            (range[0], range[1], range[2])
        },
        _ => {
            return Err(SceneError::MalformedPatternRange);
        },
    };
    let step_abs: i64 = if step < 0 {
        -(step as i64)
    } else {
        step as i64
    };
    let mut out: Vec<i32> = Vec::new();
    let mut cur: i64 = start as i64;
    proof {
        assert(out@.len() == 0);
        assert(out@.len() * step_abs == 0) by (nonlinear_arith)
            requires
                out@.len() == 0,
        ;
    }
    while cur < end as i64
        invariant
            1 <= step_abs <= 0x8000_0000,
            start as i64 <= cur,
            cur == start as int + out@.len() * step_abs,
            forall|i: int|
                0 <= i < out@.len() ==> #[trigger] out@[i] == start as int + i * step_abs,
            forall|i: int| 0 <= i < out@.len() ==> #[trigger] out@[i] < end as int,
            step_count(cur as int, end as int, step_abs as int) + out@.len() == step_count(
                start as int,
                end as int,
                step_abs as int,
            ),
        decreases (if cur < end { end as int - cur } else { 0 }),
    {
        out.push(cur as i32);
        proof {
            let k = out@.len() - 1;
            assert(k * step_abs + step_abs == (k + 1) * step_abs) by (nonlinear_arith);
        }
        cur = cur + step_abs;
    }
    Ok(out)
}

} // verus!
