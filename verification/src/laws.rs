//! What holds of validation on every module: which modules it accepts, and
//! which error it reports of the others.

use crate::arena::ArenaKind;
use crate::checks::{
    check_fails_iff_not_holds, errors_of, first_error, first_some, first_some_from_finds, first_some_from_is_at,
    first_some_from_is_none, first_some_is_none_iff, Check,
};
use crate::descriptor::{HandleErrorView, InvalidHandleError};
use crate::ir::{Function, Module};
use crate::model::{
    constant_checks, constants_errors, entry_points_errors, expression_checks,
    expressions_errors, function_error, functions_errors, global_variables_errors,
    local_variables_errors, module_error, scope_of, type_checks, types_errors,
    validation_outcome, variable_checks,
};
use crate::valid::outcome_of;
use vstd::prelude::*;

verus! {

/// What owns local variables and expressions: a function of the functions
/// arena or the function of an entry point, by position.
pub enum Owner {
    Function(int),
    EntryPoint(int),
}

/// Where in a module an entity stands, by position counted from zero.
pub enum Place {
    Type(int),
    Constant(int),
    GlobalVariable(int),
    LocalVariable(Owner, int),
    Expression(Owner, int),
}

impl Owner {
    /// Whether `module` has this function.
    pub open spec fn within(self, module: Module) -> bool {
        match self {
            Owner::Function(f) => 0 <= f < module.functions@.len(),
            Owner::EntryPoint(e) => 0 <= e < module.entry_points@.len(),
        }
    }

    /// The function that this names in `module`.
    pub open spec fn function(self, module: Module) -> Function {
        match self {
            Owner::Function(f) => module.functions@[f],
            Owner::EntryPoint(e) => module.entry_points@[e].function,
        }
    }
}

impl Place {
    /// Whether `module` has an entity at this place.
    pub open spec fn within(self, module: Module) -> bool {
        match self {
            Place::Type(i) => 0 <= i < module.types@.len(),
            Place::Constant(i) => 0 <= i < module.constants@.len(),
            Place::GlobalVariable(i) => 0 <= i < module.global_variables@.len(),
            Place::LocalVariable(owner, i) => owner.within(module) && 0 <= i
                < owner.function(module).local_variables@.len(),
            Place::Expression(owner, i) => owner.within(module) && 0 <= i < owner.function(
                module,
            ).expressions@.len(),
        }
    }

    /// The ordinal of the handle that names the entity in its arena.
    pub open spec fn ordinal(self) -> int {
        match self {
            Place::Type(i) => i + 1,
            Place::Constant(i) => i + 1,
            Place::GlobalVariable(i) => i + 1,
            Place::LocalVariable(owner, i) => i + 1,
            Place::Expression(owner, i) => i + 1,
        }
    }

    /// The arena that holds the entity at this place.
    pub open spec fn arena(self) -> ArenaKind {
        match self {
            Place::Type(i) => ArenaKind::Types,
            Place::Constant(i) => ArenaKind::Constants,
            Place::GlobalVariable(i) => ArenaKind::GlobalVariables,
            Place::LocalVariable(owner, i) => ArenaKind::LocalVariables,
            Place::Expression(owner, i) => ArenaKind::Expressions,
        }
    }

    /// The number of entities in the arena that holds the entity at this
    /// place.
    pub open spec fn arena_len(self, module: Module) -> nat {
        match self {
            Place::Type(i) => module.types@.len(),
            Place::Constant(i) => module.constants@.len(),
            Place::GlobalVariable(i) => module.global_variables@.len(),
            Place::LocalVariable(owner, i) => owner.function(module).local_variables@.len(),
            Place::Expression(owner, i) => owner.function(module).expressions@.len(),
        }
    }

    /// The checks that validation makes of the entity at this place, in
    /// their order.
    pub open spec fn checks(self, module: Module) -> Seq<Check> {
        match self {
            Place::Type(i) => type_checks(module.types@, i),
            Place::Constant(i) => constant_checks(module.types@.len(), module.constants@, i),
            Place::GlobalVariable(i) => variable_checks(
                module.types@.len(),
                module.constants@.len(),
                module.global_variables@[i].ty,
                module.global_variables@[i].init,
            ),
            Place::LocalVariable(owner, i) => variable_checks(
                module.types@.len(),
                module.constants@.len(),
                owner.function(module).local_variables@[i].ty,
                owner.function(module).local_variables@[i].init,
            ),
            Place::Expression(owner, i) => expression_checks(
                scope_of(module, owner.function(module)),
                owner.function(module).expressions@,
                i,
            ),
        }
    }

    /// The position of the place in the traversal: the arena, then the
    /// entity; within a function the local variables come before the
    /// expressions.
    pub open spec fn rank(self) -> (int, int, int, int) {
        match self {
            Place::Type(i) => (0, i, 0, 0),
            Place::Constant(i) => (1, i, 0, 0),
            Place::GlobalVariable(i) => (2, i, 0, 0),
            Place::LocalVariable(Owner::Function(f), i) => (3, f, 0, i),
            Place::Expression(Owner::Function(f), i) => (3, f, 1, i),
            Place::LocalVariable(Owner::EntryPoint(e), i) => (4, e, 0, i),
            Place::Expression(Owner::EntryPoint(e), i) => (4, e, 1, i),
        }
    }
}

/// Whether check `j` of the entity at `a` is made before check `k` of the
/// entity at `b`.
pub open spec fn comes_before(a: Place, j: int, b: Place, k: int) -> bool {
    let ra = a.rank();
    let rb = b.rank();
    ||| ra.0 < rb.0
    ||| ra.0 == rb.0 && ra.1 < rb.1
    ||| ra.0 == rb.0 && ra.1 == rb.1 && ra.2 < rb.2
    ||| ra.0 == rb.0 && ra.1 == rb.1 && ra.2 == rb.2 && ra.3 < rb.3
    ||| ra.0 == rb.0 && ra.1 == rb.1 && ra.2 == rb.2 && ra.3 == rb.3 && j < k
}

/// Whether `module` has an entity at `place` of which check `k` is made.
pub open spec fn has_check(module: Module, place: Place, k: int) -> bool {
    place.within(module) && 0 <= k < place.checks(module).len()
}

/// Every reference of the module is well-formed: each names an entity that
/// exists, and each reference within one arena names an entity defined
/// before its user.
pub open spec fn well_formed(module: Module) -> bool {
    forall|place: Place, k: int| #[trigger]
        has_check(module, place, k) ==> place.checks(module)[k].holds()
}

/// Whether every check of a sequence holds.
pub open spec fn all_hold(checks: Seq<Check>) -> bool {
    forall|k: int| 0 <= k < checks.len() ==> (#[trigger] checks[k]).holds()
}

/// A run of checks reports nothing exactly when all of them hold.
pub proof fn first_error_is_none_iff_all_hold(checks: Seq<Check>)
    ensures
        first_error(checks) is None <==> all_hold(checks),
{
    let errors = errors_of(checks);
    if all_hold(checks) {
        assert forall|j: int| 0 <= j < errors.len() implies errors[j] is None by {
            check_fails_iff_not_holds(checks[j]);
        }
        first_some_from_is_none(errors, 0);
    }
    if !all_hold(checks) {
        let k = choose|k: int| 0 <= k < checks.len() && !(#[trigger] checks[k]).holds();
        assert(errors[k] is Some);
        first_some_from_finds(errors, 0, k);
    }
}

/// A run of checks reports the error of the first check that fails.
pub proof fn first_error_is_first_failure(checks: Seq<Check>, k: int)
    requires
        0 <= k < checks.len(),
        !checks[k].holds(),
        forall|j: int| 0 <= j < k ==> (#[trigger] checks[j]).holds(),
    ensures
        first_error(checks) == checks[k].error(),
        checks[k].error() is Some,
{
    let errors = errors_of(checks);
    assert forall|j: int| 0 <= j < k implies errors[j] is None by {
        assert(checks[j].holds());
    }
    first_some_from_is_at(errors, 0, k);
}

/// For an arena whose entity `i` is checked by `checks(i)`: the arena
/// reports nothing exactly when every check of every entity holds.
proof fn arena_is_clean_iff(
    errors: Seq<Option<HandleErrorView>>,
    checks: spec_fn(int) -> Seq<Check>,
)
    requires
        forall|i: int| 0 <= i < errors.len() ==> #[trigger] errors[i] == first_error(checks(i)),
    ensures
        first_some(errors) is None <==> forall|i: int|
            0 <= i < errors.len() ==> all_hold(#[trigger] checks(i)),
{
    first_some_is_none_iff(errors);
    if first_some(errors) is None {
        assert forall|i: int| 0 <= i < errors.len() implies all_hold(#[trigger] checks(i)) by {
            assert(errors[i] is None);
            first_error_is_none_iff_all_hold(checks(i));
        }
    }
    if forall|i: int| 0 <= i < errors.len() ==> all_hold(#[trigger] checks(i)) {
        assert forall|i: int| 0 <= i < errors.len() implies (#[trigger] errors[i]) is None by {
            assert(all_hold(checks(i)));
            first_error_is_none_iff_all_hold(checks(i));
        }
    }
}

/// For an arena whose entity `i` is checked by `checks(i)`: where check `k`
/// of entity `i` fails and every check before it holds, the arena reports
/// the error of that check.
proof fn arena_reports_first_failure(
    errors: Seq<Option<HandleErrorView>>,
    checks: spec_fn(int) -> Seq<Check>,
    i: int,
    k: int,
)
    requires
        forall|i: int| 0 <= i < errors.len() ==> #[trigger] errors[i] == first_error(checks(i)),
        0 <= i < errors.len(),
        0 <= k < checks(i).len(),
        !checks(i)[k].holds(),
        forall|j: int| 0 <= j < k ==> (#[trigger] checks(i)[j]).holds(),
        forall|h: int| 0 <= h < i ==> all_hold(#[trigger] checks(h)),
    ensures
        first_some(errors) == checks(i)[k].error(),
        checks(i)[k].error() is Some,
{
    first_error_is_first_failure(checks(i), k);
    assert forall|h: int| 0 <= h < i implies errors[h] is None by {
        assert(all_hold(checks(h)));
        first_error_is_none_iff_all_hold(checks(h));
    }
    assert(errors[i] == first_error(checks(i)));
    first_some_from_is_at(errors, 0, i);
}

/// The checks of the places of one arena, by position.
spec fn type_checks_at(module: Module) -> spec_fn(int) -> Seq<Check> {
    |i: int| Place::Type(i).checks(module)
}

spec fn constant_checks_at(module: Module) -> spec_fn(int) -> Seq<Check> {
    |i: int| Place::Constant(i).checks(module)
}

spec fn global_variable_checks_at(module: Module) -> spec_fn(int) -> Seq<Check> {
    |i: int| Place::GlobalVariable(i).checks(module)
}

spec fn local_variable_checks_at(module: Module, owner: Owner) -> spec_fn(int) -> Seq<Check> {
    |i: int| Place::LocalVariable(owner, i).checks(module)
}

spec fn expression_checks_at(module: Module, owner: Owner) -> spec_fn(int) -> Seq<Check> {
    |i: int| Place::Expression(owner, i).checks(module)
}

/// Whether every check of every entity of an arena of `len` entities holds.
spec fn arena_holds(len: nat, checks: spec_fn(int) -> Seq<Check>) -> bool {
    forall|i: int| 0 <= i < len ==> all_hold(#[trigger] checks(i))
}

/// Whether every check of the local variables and expressions of a function
/// holds.
spec fn owner_holds(module: Module, owner: Owner) -> bool {
    &&& arena_holds(
        owner.function(module).local_variables@.len(),
        local_variable_checks_at(module, owner),
    )
    &&& arena_holds(
        owner.function(module).expressions@.len(),
        expression_checks_at(module, owner),
    )
}

/// The errors of the local variables of a function.
spec fn local_errors(module: Module, owner: Owner) -> Seq<Option<HandleErrorView>> {
    local_variables_errors(
        module.types@.len(),
        module.constants@.len(),
        owner.function(module).local_variables@,
    )
}

/// The errors of the expressions of a function.
spec fn expression_errors(module: Module, owner: Owner) -> Seq<Option<HandleErrorView>> {
    expressions_errors(
        scope_of(module, owner.function(module)),
        owner.function(module).expressions@,
    )
}

/// A function reports nothing exactly when every check of its local
/// variables and expressions holds.
proof fn function_is_clean_iff(module: Module, owner: Owner)
    ensures
        function_error(module, owner.function(module)) is None <==> owner_holds(module, owner),
{
    arena_is_clean_iff(local_errors(module, owner), local_variable_checks_at(module, owner));
    arena_is_clean_iff(expression_errors(module, owner), expression_checks_at(module, owner));
}

/// Whether every check of every function of the functions arena holds.
spec fn functions_hold(module: Module) -> bool {
    forall|f: int|
        0 <= f < module.functions@.len() ==> #[trigger] owner_holds(module, Owner::Function(f))
}

/// Whether every check of the function of every entry point holds.
spec fn entry_points_hold(module: Module) -> bool {
    forall|e: int|
        0 <= e < module.entry_points@.len() ==> #[trigger] owner_holds(
            module,
            Owner::EntryPoint(e),
        )
}

proof fn functions_are_clean_iff(module: Module)
    ensures
        first_some(functions_errors(module)) is None <==> functions_hold(module),
{
    let errors = functions_errors(module);
    first_some_is_none_iff(errors);
    if functions_hold(module) {
        assert forall|f: int| 0 <= f < errors.len() implies (#[trigger] errors[f]) is None by {
            assert(owner_holds(module, Owner::Function(f)));
            function_is_clean_iff(module, Owner::Function(f));
        }
    }
    if first_some(errors) is None {
        assert forall|f: int| 0 <= f < errors.len() implies #[trigger] owner_holds(
            module,
            Owner::Function(f),
        ) by {
            assert(errors[f] is None);
            function_is_clean_iff(module, Owner::Function(f));
        }
    }
}


proof fn entry_points_are_clean_iff(module: Module)
    ensures
        first_some(entry_points_errors(module)) is None <==> entry_points_hold(module),
{
    let errors = entry_points_errors(module);
    first_some_is_none_iff(errors);
    if entry_points_hold(module) {
        assert forall|e: int| 0 <= e < errors.len() implies (#[trigger] errors[e]) is None by {
            assert(owner_holds(module, Owner::EntryPoint(e)));
            function_is_clean_iff(module, Owner::EntryPoint(e));
        }
    }
    if first_some(errors) is None {
        assert forall|e: int| 0 <= e < errors.len() implies #[trigger] owner_holds(
            module,
            Owner::EntryPoint(e),
        ) by {
            assert(errors[e] is None);
            function_is_clean_iff(module, Owner::EntryPoint(e));
        }
    }
}


/// Whether every check of the module holds, arena by arena.
spec fn arenas_hold(module: Module) -> bool {
    &&& arena_holds(module.types@.len(), type_checks_at(module))
    &&& arena_holds(module.constants@.len(), constant_checks_at(module))
    &&& arena_holds(module.global_variables@.len(), global_variable_checks_at(module))
    &&& functions_hold(module)
    &&& entry_points_hold(module)
}

proof fn module_is_clean_iff(module: Module)
    ensures
        module_error(module) is None <==> arenas_hold(module),
{
    arena_is_clean_iff(types_errors(module.types@), type_checks_at(module));
    arena_is_clean_iff(
        constants_errors(module.types@.len(), module.constants@),
        constant_checks_at(module),
    );
    arena_is_clean_iff(
        global_variables_errors(
            module.types@.len(),
            module.constants@.len(),
            module.global_variables@,
        ),
        global_variable_checks_at(module),
    );
    functions_are_clean_iff(module);
    entry_points_are_clean_iff(module);
}

proof fn arenas_hold_iff_well_formed(module: Module)
    ensures
        arenas_hold(module) <==> well_formed(module),
{
    if well_formed(module) {
        assert forall|i: int| 0 <= i < module.types@.len() implies all_hold(
            #[trigger] type_checks_at(module)(i),
        ) by {
            assert forall|k: int| 0 <= k < Place::Type(i).checks(module).len() implies (
            #[trigger] Place::Type(i).checks(module)[k]).holds() by {
                assert(has_check(module, Place::Type(i), k));
            }
        }
        assert forall|i: int| 0 <= i < module.constants@.len() implies all_hold(
            #[trigger] constant_checks_at(module)(i),
        ) by {
            assert forall|k: int| 0 <= k < Place::Constant(i).checks(module).len() implies (
            #[trigger] Place::Constant(i).checks(module)[k]).holds() by {
                assert(has_check(module, Place::Constant(i), k));
            }
        }
        assert forall|i: int| 0 <= i < module.global_variables@.len() implies all_hold(
            #[trigger] global_variable_checks_at(module)(i),
        ) by {
            assert forall|k: int|
                0 <= k < Place::GlobalVariable(i).checks(module).len() implies (
            #[trigger] Place::GlobalVariable(i).checks(module)[k]).holds() by {
                assert(has_check(module, Place::GlobalVariable(i), k));
            }
        }
        assert forall|f: int| 0 <= f < module.functions@.len() implies #[trigger] owner_holds(
            module,
            Owner::Function(f),
        ) by {
            owner_of_well_formed_holds(module, Owner::Function(f));
        }
        assert forall|e: int|
            0 <= e < module.entry_points@.len() implies #[trigger] owner_holds(
            module,
            Owner::EntryPoint(e),
        ) by {
            owner_of_well_formed_holds(module, Owner::EntryPoint(e));
        }
    }
    if arenas_hold(module) {
        assert forall|place: Place, k: int| #[trigger]
            has_check(module, place, k) implies place.checks(module)[k].holds() by {
            match place {
                Place::Type(i) => {
                    assert(all_hold(type_checks_at(module)(i)));
                },
                Place::Constant(i) => {
                    assert(all_hold(constant_checks_at(module)(i)));
                },
                Place::GlobalVariable(i) => {
                    assert(all_hold(global_variable_checks_at(module)(i)));
                },
                Place::LocalVariable(owner, i) => {
                    owner_within_holds(module, owner);
                    assert(all_hold(local_variable_checks_at(module, owner)(i)));
                },
                Place::Expression(owner, i) => {
                    owner_within_holds(module, owner);
                    assert(all_hold(expression_checks_at(module, owner)(i)));
                },
            }
        }
    }
}

proof fn owner_within_holds(module: Module, owner: Owner)
    requires
        arenas_hold(module),
        owner.within(module),
    ensures
        owner_holds(module, owner),
{
    match owner {
        Owner::Function(f) => {
            assert(owner_holds(module, Owner::Function(f)));
        },
        Owner::EntryPoint(e) => {
            assert(owner_holds(module, Owner::EntryPoint(e)));
        },
    }
}

proof fn owner_of_well_formed_holds(module: Module, owner: Owner)
    requires
        well_formed(module),
        owner.within(module),
    ensures
        owner_holds(module, owner),
{
    assert forall|i: int|
        0 <= i < owner.function(module).local_variables@.len() implies all_hold(
        #[trigger] local_variable_checks_at(module, owner)(i),
    ) by {
        let place = Place::LocalVariable(owner, i);
        assert forall|k: int| 0 <= k < place.checks(module).len() implies (
        #[trigger] place.checks(module)[k]).holds() by {
            assert(has_check(module, place, k));
        }
    }
    assert forall|i: int| 0 <= i < owner.function(module).expressions@.len() implies all_hold(
        #[trigger] expression_checks_at(module, owner)(i),
    ) by {
        let place = Place::Expression(owner, i);
        assert forall|k: int| 0 <= k < place.checks(module).len() implies (
        #[trigger] place.checks(module)[k]).holds() by {
            assert(has_check(module, place, k));
        }
    }
}

/// Validation accepts a module exactly when every reference in it is
/// well-formed: a module whose handles were all assigned in dependency order
/// is never rejected, and an accepted module holds no dangling and no
/// forward reference.
pub proof fn accepts_exactly_the_well_formed(module: Module)
    ensures
        validation_outcome(module) is Ok <==> well_formed(module),
{
    module_is_clean_iff(module);
    arenas_hold_iff_well_formed(module);
}

/// Whether every check that validation makes before check `k` of the entity
/// at `place` holds.
pub open spec fn all_earlier_hold(module: Module, place: Place, k: int) -> bool {
    forall|p: Place, j: int| #[trigger]
        has_check(module, p, j) && comes_before(p, j, place, k) ==> p.checks(module)[j].holds()
}

/// Whether the entity at `p` is visited before the entity at `place`.
spec fn visited_before(p: Place, place: Place) -> bool {
    comes_before(p, 0, place, 0)
}

/// Whether the whole of the function `owner` is visited before the entity at
/// `place`.
spec fn owner_visited_before(owner: Owner, place: Place) -> bool {
    let rank = place.rank();
    match owner {
        Owner::Function(f) => 3 < rank.0 || (3 == rank.0 && f < rank.1),
        Owner::EntryPoint(e) => 4 < rank.0 || (4 == rank.0 && e < rank.1),
    }
}

proof fn earlier_entity_holds(module: Module, place: Place, k: int, p: Place)
    requires
        all_earlier_hold(module, place, k),
        p.within(module),
        visited_before(p, place),
    ensures
        all_hold(p.checks(module)),
{
    assert forall|j: int| 0 <= j < p.checks(module).len() implies (#[trigger] p.checks(
        module,
    )[j]).holds() by {
        assert(has_check(module, p, j));
        assert(comes_before(p, j, place, k));
    }
}

proof fn earlier_owner_holds(module: Module, place: Place, k: int, owner: Owner)
    requires
        all_earlier_hold(module, place, k),
        owner.within(module),
        owner_visited_before(owner, place),
    ensures
        owner_holds(module, owner),
{
    assert forall|i: int|
        0 <= i < owner.function(module).local_variables@.len() implies all_hold(
        #[trigger] local_variable_checks_at(module, owner)(i),
    ) by {
        earlier_entity_holds(module, place, k, Place::LocalVariable(owner, i));
    }
    assert forall|i: int| 0 <= i < owner.function(module).expressions@.len() implies all_hold(
        #[trigger] expression_checks_at(module, owner)(i),
    ) by {
        let p = Place::Expression(owner, i);
        assert forall|j: int| 0 <= j < p.checks(module).len() implies (#[trigger] p.checks(
            module,
        )[j]).holds() by {
            assert(has_check(module, p, j));
            assert(comes_before(p, j, place, k));
        }
    }
}

/// What the arenas before the one of `place` report: nothing.
proof fn earlier_arenas_are_clean(module: Module, place: Place, k: int)
    requires
        all_earlier_hold(module, place, k),
    ensures
        place.rank().0 > 0 ==> first_some(types_errors(module.types@)) is None,
        place.rank().0 > 1 ==> first_some(
            constants_errors(module.types@.len(), module.constants@),
        ) is None,
        place.rank().0 > 2 ==> first_some(
            global_variables_errors(
                module.types@.len(),
                module.constants@.len(),
                module.global_variables@,
            ),
        ) is None,
        place.rank().0 > 3 ==> first_some(functions_errors(module)) is None,
{
    if place.rank().0 > 0 {
        assert forall|i: int| 0 <= i < module.types@.len() implies all_hold(
            #[trigger] type_checks_at(module)(i),
        ) by {
            earlier_entity_holds(module, place, k, Place::Type(i));
        }
        arena_is_clean_iff(types_errors(module.types@), type_checks_at(module));
    }
    if place.rank().0 > 1 {
        assert forall|i: int| 0 <= i < module.constants@.len() implies all_hold(
            #[trigger] constant_checks_at(module)(i),
        ) by {
            earlier_entity_holds(module, place, k, Place::Constant(i));
        }
        arena_is_clean_iff(
            constants_errors(module.types@.len(), module.constants@),
            constant_checks_at(module),
        );
    }
    if place.rank().0 > 2 {
        assert forall|i: int| 0 <= i < module.global_variables@.len() implies all_hold(
            #[trigger] global_variable_checks_at(module)(i),
        ) by {
            earlier_entity_holds(module, place, k, Place::GlobalVariable(i));
        }
        arena_is_clean_iff(
            global_variables_errors(
                module.types@.len(),
                module.constants@.len(),
                module.global_variables@,
            ),
            global_variable_checks_at(module),
        );
    }
    if place.rank().0 > 3 {
        assert forall|f: int| 0 <= f < module.functions@.len() implies #[trigger] owner_holds(
            module,
            Owner::Function(f),
        ) by {
            earlier_owner_holds(module, place, k, Owner::Function(f));
        }
        functions_are_clean_iff(module);
    }
}

/// Where check `k` of a local variable or an expression of a function fails
/// and every check before it holds, the function reports the error of that
/// check.
proof fn function_reports_first_failure(module: Module, place: Place, k: int, owner: Owner)
    requires
        has_check(module, place, k),
        !place.checks(module)[k].holds(),
        all_earlier_hold(module, place, k),
        place matches Place::LocalVariable(o, i) ==> o == owner,
        place matches Place::Expression(o, i) ==> o == owner,
        place is LocalVariable || place is Expression,
    ensures
        function_error(module, owner.function(module)) == place.checks(module)[k].error(),
        place.checks(module)[k].error() is Some,
{
    match place {
        Place::LocalVariable(o, i) => {
            let checks = local_variable_checks_at(module, owner);
            assert forall|j: int| 0 <= j < k implies (#[trigger] checks(i)[j]).holds() by {
                assert(has_check(module, place, j));
                assert(comes_before(place, j, place, k));
            }
            assert forall|h: int| 0 <= h < i implies all_hold(#[trigger] checks(h)) by {
                earlier_entity_holds(module, place, k, Place::LocalVariable(owner, h));
            }
            arena_reports_first_failure(local_errors(module, owner), checks, i, k);
        },
        Place::Expression(o, i) => {
            let locals = local_variable_checks_at(module, owner);
            assert forall|h: int|
                0 <= h < owner.function(module).local_variables@.len() implies all_hold(
                #[trigger] locals(h),
            ) by {
                earlier_entity_holds(module, place, k, Place::LocalVariable(owner, h));
            }
            arena_is_clean_iff(local_errors(module, owner), locals);
            let checks = expression_checks_at(module, owner);
            assert forall|j: int| 0 <= j < k implies (#[trigger] checks(i)[j]).holds() by {
                assert(has_check(module, place, j));
                assert(comes_before(place, j, place, k));
            }
            assert forall|h: int| 0 <= h < i implies all_hold(#[trigger] checks(h)) by {
                earlier_entity_holds(module, place, k, Place::Expression(owner, h));
            }
            arena_reports_first_failure(expression_errors(module, owner), checks, i, k);
        },
        _ => {},
    }
}

/// Validation is fail-fast in a fixed order: where a check fails and every
/// check made before it holds, the module is rejected with the error of
/// that check, whatever comes after it.
pub proof fn reports_the_first_failure(module: Module, place: Place, k: int)
    requires
        has_check(module, place, k),
        !place.checks(module)[k].holds(),
        all_earlier_hold(module, place, k),
    ensures
        place.checks(module)[k].error() is Some,
        validation_outcome(module) == Err::<(), HandleErrorView>(
            place.checks(module)[k].error()->0,
        ),
{
    earlier_arenas_are_clean(module, place, k);
    match place {
        Place::Type(i) => {
            let checks = type_checks_at(module);
            assert forall|j: int| 0 <= j < k implies (#[trigger] checks(i)[j]).holds() by {
                assert(has_check(module, place, j));
                assert(comes_before(place, j, place, k));
            }
            assert forall|h: int| 0 <= h < i implies all_hold(#[trigger] checks(h)) by {
                earlier_entity_holds(module, place, k, Place::Type(h));
            }
            arena_reports_first_failure(types_errors(module.types@), checks, i, k);
        },
        Place::Constant(i) => {
            let checks = constant_checks_at(module);
            assert forall|j: int| 0 <= j < k implies (#[trigger] checks(i)[j]).holds() by {
                assert(has_check(module, place, j));
                assert(comes_before(place, j, place, k));
            }
            assert forall|h: int| 0 <= h < i implies all_hold(#[trigger] checks(h)) by {
                earlier_entity_holds(module, place, k, Place::Constant(h));
            }
            arena_reports_first_failure(
                constants_errors(module.types@.len(), module.constants@),
                checks,
                i,
                k,
            );
        },
        Place::GlobalVariable(i) => {
            let checks = global_variable_checks_at(module);
            assert forall|j: int| 0 <= j < k implies (#[trigger] checks(i)[j]).holds() by {
                assert(has_check(module, place, j));
                assert(comes_before(place, j, place, k));
            }
            assert forall|h: int| 0 <= h < i implies all_hold(#[trigger] checks(h)) by {
                earlier_entity_holds(module, place, k, Place::GlobalVariable(h));
            }
            arena_reports_first_failure(
                global_variables_errors(
                    module.types@.len(),
                    module.constants@.len(),
                    module.global_variables@,
                ),
                checks,
                i,
                k,
            );
        },
        Place::LocalVariable(owner, i) => {
            owner_reports_first_failure(module, place, k, owner);
        },
        Place::Expression(owner, i) => {
            owner_reports_first_failure(module, place, k, owner);
        },
    }
}

/// The step of `reports_the_first_failure` for a place inside a function.
proof fn owner_reports_first_failure(module: Module, place: Place, k: int, owner: Owner)
    requires
        has_check(module, place, k),
        !place.checks(module)[k].holds(),
        all_earlier_hold(module, place, k),
        place matches Place::LocalVariable(o, i) ==> o == owner,
        place matches Place::Expression(o, i) ==> o == owner,
        place is LocalVariable || place is Expression,
        first_some(types_errors(module.types@)) is None,
        first_some(constants_errors(module.types@.len(), module.constants@)) is None,
        first_some(
            global_variables_errors(
                module.types@.len(),
                module.constants@.len(),
                module.global_variables@,
            ),
        ) is None,
        place.rank().0 > 3 ==> first_some(functions_errors(module)) is None,
    ensures
        place.checks(module)[k].error() is Some,
        module_error(module) == place.checks(module)[k].error(),
{
    function_reports_first_failure(module, place, k, owner);
    match owner {
        Owner::Function(f) => {
            let errors = functions_errors(module);
            assert forall|h: int| 0 <= h < f implies errors[h] is None by {
                earlier_owner_holds(module, place, k, Owner::Function(h));
                function_is_clean_iff(module, Owner::Function(h));
            }
            first_some_from_is_at(errors, 0, f);
        },
        Owner::EntryPoint(e) => {
            let errors = entry_points_errors(module);
            assert forall|h: int| 0 <= h < e implies errors[h] is None by {
                earlier_owner_holds(module, place, k, Owner::EntryPoint(h));
                function_is_clean_iff(module, Owner::EntryPoint(h));
            }
            first_some_from_is_at(errors, 0, e);
        },
    }
}

/// An ordering check is made of a reference within one arena: its subject
/// is the entity being visited, and the dependency is looked up in the
/// arena of that entity. An existence check is made of a reference into
/// another arena.
pub proof fn checks_follow_the_arenas(module: Module, place: Place, k: int)
    requires
        has_check(module, place, k),
    ensures
        match place.checks(module)[k] {
            Check::Precedes { kind, len, subject, depends_on } => {
                &&& subject.ordinal == place.ordinal()
                &&& kind == place.arena()
                &&& len == place.arena_len(module)
            },
            Check::Exists { kind, len, ordinal } => kind != place.arena(),
            Check::Nothing => true,
        },
{
}

/// Ordinal monotonicity, for the modules that validation accepts: an entity
/// refers only to entities of its own arena with a smaller ordinal than its
/// own.
pub proof fn accepted_references_point_backwards(module: Module, place: Place, k: int)
    requires
        validation_outcome(module) is Ok,
        has_check(module, place, k),
        place.checks(module)[k] is Precedes,
    ensures
        place.checks(module)[k]->depends_on.ordinal < place.ordinal(),
{
    accepts_exactly_the_well_formed(module);
    checks_follow_the_arenas(module, place, k);
    assert(place.checks(module)[k].holds());
}

/// Ordinal monotonicity, for the modules that validation rejects: where an
/// entity refers to an entity of its own arena whose ordinal is not smaller
/// than its own, and no check made before that one fails, the module is
/// rejected with a forward-dependency error that names exactly the two.
pub proof fn forward_reference_is_reported(module: Module, place: Place, k: int)
    requires
        has_check(module, place, k),
        place.checks(module)[k] is Precedes,
        1 <= place.checks(module)[k]->depends_on.ordinal <= place.arena_len(module),
        place.checks(module)[k]->depends_on.ordinal >= place.ordinal(),
        all_earlier_hold(module, place, k),
    ensures
        validation_outcome(module) == Err::<(), HandleErrorView>(
            HandleErrorView::ForwardDependency {
                subject: place.checks(module)[k]->subject,
                depends_on: place.checks(module)[k]->depends_on,
            },
        ),
        place.checks(module)[k]->subject.ordinal == place.ordinal(),
{
    checks_follow_the_arenas(module, place, k);
    reports_the_first_failure(module, place, k);
}

/// Existence, for the modules that validation accepts: every handle in the
/// module names an entity of the arena it points into.
pub proof fn accepted_references_exist(module: Module, place: Place, k: int)
    requires
        validation_outcome(module) is Ok,
        has_check(module, place, k),
    ensures
        match place.checks(module)[k] {
            Check::Exists { kind, len, ordinal } => 1 <= ordinal <= len,
            Check::Precedes { kind, len, subject, depends_on } => 1 <= depends_on.ordinal <= len,
            Check::Nothing => true,
        },
{
    accepts_exactly_the_well_formed(module);
    assert(place.checks(module)[k].holds());
}

/// Existence, for the modules that validation rejects: where a handle into
/// another arena is outside the populated range of that arena, one past the
/// end included, and no check made before that one fails, the module is
/// rejected with a bad-handle error that carries the ordinal and the arena.
pub proof fn dangling_reference_is_reported(module: Module, place: Place, k: int)
    requires
        has_check(module, place, k),
        place.checks(module)[k] is Exists,
        !(1 <= place.checks(module)[k]->ordinal <= place.checks(module)[k]->Exists_len),
        all_earlier_hold(module, place, k),
    ensures
        validation_outcome(module) == Err::<(), HandleErrorView>(
            HandleErrorView::Bad {
                kind: place.checks(module)[k]->Exists_kind,
                ordinal: place.checks(module)[k]->ordinal,
            },
        ),
{
    reports_the_first_failure(module, place, k);
}

/// The same for a handle into the arena of its user: where it names no
/// entity of that arena, and no check made before that one fails, the
/// module is rejected with a bad-handle error, not with a forward
/// dependency.
pub proof fn dangling_dependency_is_reported(module: Module, place: Place, k: int)
    requires
        has_check(module, place, k),
        place.checks(module)[k] is Precedes,
        !(1 <= place.checks(module)[k]->depends_on.ordinal <= place.arena_len(module)),
        all_earlier_hold(module, place, k),
    ensures
        validation_outcome(module) == Err::<(), HandleErrorView>(
            HandleErrorView::Bad {
                kind: place.arena(),
                ordinal: place.checks(module)[k]->depends_on.ordinal,
            },
        ),
{
    checks_follow_the_arenas(module, place, k);
    reports_the_first_failure(module, place, k);
}

/// Types come first: a module with a type that refers to itself, to a later
/// type or to no type is rejected, and with the error of its types, whatever
/// its other arenas hold.
pub proof fn types_are_checked_first(module: Module, other: Module, index: int, k: int)
    requires
        has_check(module, Place::Type(index), k),
        !Place::Type(index).checks(module)[k].holds(),
        other.types@ == module.types@,
    ensures
        validation_outcome(module) is Err,
        validation_outcome(other) == validation_outcome(module),
{
    let errors = types_errors(module.types@);
    let checks = type_checks(module.types@, index);
    first_error_is_none_iff_all_hold(checks);
    assert(checks[k] == Place::Type(index).checks(module)[k]);
    assert(errors[index] is Some);
    first_some_from_finds(errors, 0, index);
}

/// Validation is a function of the module: two runs on the same module end
/// the same way, and where they fail, with errors that say the same and are
/// written out the same.
pub proof fn validation_is_repeatable(
    module: Module,
    first: Result<(), InvalidHandleError>,
    second: Result<(), InvalidHandleError>,
)
    requires
        outcome_of(first) == validation_outcome(module),
        outcome_of(second) == validation_outcome(module),
    ensures
        outcome_of(first) == outcome_of(second),
        first is Ok <==> second is Ok,
        first is Err ==> first->Err_0@ == second->Err_0@ && first->Err_0@.rendered()
            == second->Err_0@.rendered(),
{
}

} // verus!
