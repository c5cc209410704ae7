//! The reversible operations that the library brings: a motion that is
//! undone, and motion parameters that are put back.
use vstd::prelude::*;
use vstd::string::*;
use crate::context::Context;
use crate::context::ContextGuard;
use crate::iva::json_text;
use crate::iva::MotionMode;
use crate::iva::MotionTarget;
use crate::iva::RobotCommand;
use crate::robot::Exchange;
use crate::robot::execute_wire;
use crate::robot::IvaContext;
use crate::robot::IvaRobot;
use crate::robot::kind_of;
use crate::robot::MotionParam;
use crate::robot::outcome_of;
use crate::robot::param_told;
use crate::robot::pose_read;
use crate::robot::reply::PoseKind;
use crate::robot::Robot;
use crate::robot::RobotError;
use crate::robot::told;
use crate::robot::where_wire;
use crate::socket::Transport;

verus! {

/// A motion that is undone when the context is left.
///
/// An absolute motion is undone by moving back to where the robot stood
/// when the context was entered. A relative motion is undone by the opposite
/// delta, or by the delta given with `with_restore`.
#[derive(Debug, Clone, Copy)]
pub struct MotionContext {
    /// How the arm moves.
    pub mode: MotionMode,
    /// Where the arm moves.
    pub pose: MotionTarget,
    /// The motion that undoes this one, once it is known.
    pub restore: Option<MotionTarget>,
}

impl MotionContext {
    /// The motion of `mode` to `pose`, to be undone.
    pub fn new(mode: MotionMode, pose: MotionTarget) -> (r: Self)
        ensures
            r == Self::to(mode, pose),
    {
        MotionContext { mode, pose, restore: None }
    }

    /// This context with `restore` as the delta that undoes a relative
    /// motion, for a delta whose opposite does not undo it.
    pub fn with_restore(self, restore: MotionTarget) -> (r: Self)
        ensures
            r == (MotionContext { restore: Some(restore), ..self }),
    {
        MotionContext { restore: Some(restore), ..self }
    }

    /// The motion of `mode` to `pose`, not yet entered.
    pub open spec fn to(mode: MotionMode, pose: MotionTarget) -> Self {
        MotionContext { mode, pose, restore: None }
    }

    /// The command of this motion.
    pub open spec fn command(self) -> RobotCommand {
        RobotCommand::Motion { motion_mode: self.mode, target: self.pose }
    }

    /// The delta that undoes this motion if it is relative.
    pub open spec fn delta_back(self) -> MotionTarget {
        match self.restore {
            Some(delta) => delta,
            None => self.pose.opposite(),
        }
    }

    /// This context once `back` undoes it.
    pub open spec fn remembering(self, back: MotionTarget) -> Self {
        MotionContext { restore: Some(back), ..self }
    }

    /// Whether entering this context may take the round trips of a robot
    /// from `before` to `after` and end as `entered`, failing with `failed`
    /// or succeeding where that is `None`.
    ///
    /// A relative motion is one round trip, the motion itself. An absolute
    /// motion begins with the question where the robot stands, as a pose of
    /// the kind of the target; only if that is answered with a pose does
    /// the motion follow. The context remembers how to undo the motion only
    /// if entering succeeds.
    pub open spec fn entered_by(
        self,
        before: Seq<Exchange>,
        entered: Self,
        after: Seq<Exchange>,
        failed: Option<RobotError>,
    ) -> bool {
        if self.mode.is_relative_spec() {
            &&& told(before, after, execute_wire(self.command()), outcome_of(failed))
            &&& entered == if failed is None {
                self.remembering(self.delta_back())
            } else {
                self
            }
        } else {
            &&& after.len() > before.len()
            &&& after.take(before.len() as int) == before
            &&& after[before.len() as int].line == json_text(where_wire(kind_of(self.pose)))
            &&& match pose_read(kind_of(self.pose), after[before.len() as int].reply) {
                Err(e) => {
                    &&& after.len() == before.len() + 1
                    &&& failed == Some(e)
                    &&& entered == self
                },
                Ok(stood) => {
                    &&& told(
                        after.take(before.len() as int + 1),
                        after,
                        execute_wire(self.command()),
                        outcome_of(failed),
                    )
                    &&& entered == if failed is None {
                        self.remembering(stood)
                    } else {
                        self
                    }
                },
            }
        }
    }

    /// Whether leaving this context may take the round trips of a robot from
    /// `before` to `after`, failing with `failed` or succeeding where that
    /// is `None`: one round trip, the motion of the same mode that undoes
    /// this one; none where the context was never entered.
    pub open spec fn left_by(
        self,
        before: Seq<Exchange>,
        after: Seq<Exchange>,
        failed: Option<RobotError>,
    ) -> bool {
        match self.restore {
            Some(back) => told(
                before,
                after,
                execute_wire(RobotCommand::Motion { motion_mode: self.mode, target: back }),
                outcome_of(failed),
            ),
            None => after == before && failed is None,
        }
    }
}

impl<R: IvaRobot> Context<R> for MotionContext {
    type Error = RobotError;

    open spec fn enters(
        before: &Self,
        machine: &R,
        after: &Self,
        changed: &R,
        failed: Option<RobotError>,
    ) -> bool {
        R::traced() ==> {
            &&& before.entered_by(machine.trace(), *after, changed.trace(), failed)
            &&& changed.held() == machine.held()
        }
    }

    open spec fn leaves(
        before: &Self,
        machine: &R,
        after: &Self,
        changed: &R,
        failed: Option<RobotError>,
    ) -> bool {
        &&& after == before
        &&& R::traced() ==> {
            &&& before.left_by(machine.trace(), changed.trace(), failed)
            &&& changed.held() == machine.held()
        }
    }

    fn context_enter(&mut self, machine: &mut R) -> (r: Result<(), RobotError>) {
        let command = RobotCommand::Motion { motion_mode: self.mode, target: self.pose };
        if self.mode.is_relative() {
            let back = match self.restore {
                Some(delta) => delta,
                None => self.pose.negate(),
            };
            match machine.execute(command) {
                Ok(_) => {
                    self.restore = Some(back);
                    Ok(())
                },
                Err(e) => Err(e),
            }
        } else {
            let ghost before = machine.trace();
            let kind = match self.pose {
                MotionTarget::Transform(_) => PoseKind::Cartesian,
                MotionTarget::JointCoord(_) => PoseKind::Joint,
            };
            let stood = machine.current_pose(kind);
            let ghost asked = machine.trace();
            match stood {
                Err(e) => Err(e),
                Ok(stood) => {
                    let done = match machine.execute(command) {
                        Ok(_) => Ok(()),
                        Err(e) => Err(e),
                    };
                    proof {
                        if R::traced() {
                            let after = machine.trace();
                            assert(after.drop_last() =~= asked);
                            assert(after.take(before.len() as int) =~= before);
                        }
                    }
                    match done {
                        Ok(()) => {
                            self.restore = Some(stood);
                            Ok(())
                        },
                        Err(e) => Err(e),
                    }
                },
            }
        }
    }

    fn context_drop(&mut self, machine: &mut R) -> (r: Result<(), RobotError>) {
        match self.restore {
            None => Ok(()),
            Some(back) => match machine.execute(
                RobotCommand::Motion { motion_mode: self.mode, target: back },
            ) {
                Ok(_) => Ok(()),
                Err(e) => Err(e),
            },
        }
    }

    /// A motion context is named `motion`.
    open spec fn named(&self, label: Seq<char>) -> bool {
        label == "motion"@
    }

    fn label(&self) -> (s: String) {
        String::from_str("motion")
    }
}

/// The parameters put aside once `param` is set over `params`: `fallback`
/// goes under it where nothing was put aside before.
pub open spec fn params_entered(
    params: Seq<MotionParam>,
    fallback: MotionParam,
    param: MotionParam,
) -> Seq<MotionParam> {
    if params.len() == 0 {
        seq![fallback, param]
    } else {
        params.push(param)
    }
}

/// The parameters put aside once the ones set last are taken off `params`.
pub open spec fn params_left(params: Seq<MotionParam>) -> Seq<MotionParam> {
    if params.len() == 0 {
        params
    } else {
        params.drop_last()
    }
}

/// The parameters that hold over `params`: the ones on top, or `fallback`
/// where nothing is put aside.
pub open spec fn params_top(params: Seq<MotionParam>, fallback: MotionParam) -> MotionParam {
    if params.len() == 0 {
        fallback
    } else {
        params.last()
    }
}

/// Leaving a parameter context puts back what held before it was entered:
/// after `param` is set over `params` and taken off again, the parameters
/// that hold are those that held before, however deep `params` is.
pub proof fn lemma_params_restored(
    params: Seq<MotionParam>,
    fallback: MotionParam,
    param: MotionParam,
)
    ensures
        params_top(params_left(params_entered(params, fallback, param)), fallback) == params_top(
            params,
            fallback,
        ),
        params_top(params_entered(params, fallback, param), fallback) == param,
{
}

/// Two parameter contexts, one inside the other, over a robot with nothing
/// put aside: leaving the inner one puts back the parameters `a` of the
/// outer one, and leaving the outer one puts back the robot's own.
pub proof fn lemma_params_stacked(fallback: MotionParam, a: MotionParam, b: MotionParam)
    ensures
        ({
            let inner = params_entered(
                params_entered(Seq::<MotionParam>::empty(), fallback, a),
                fallback,
                b,
            );
            &&& params_top(params_left(inner), fallback) == a
            &&& params_top(params_left(params_left(inner)), fallback) == fallback
        }),
{
    let outer = params_entered(Seq::<MotionParam>::empty(), fallback, a);
    let inner = params_entered(outer, fallback, b);
}

/// Motion parameters that are put back when the context is left.
#[derive(Debug, Clone, Copy)]
pub struct ParamContext {
    /// The parameters that hold inside the context.
    pub param: MotionParam,
}

impl ParamContext {
    /// The context in which `param` holds.
    pub fn new(param: MotionParam) -> (r: Self)
        ensures
            r.param == param,
    {
        ParamContext { param }
    }
}

impl<S: Transport> Context<Robot<S>> for ParamContext {
    type Error = RobotError;

    /// Entering sets the parameters of the context over those that the
    /// robot has put aside and tells the robot to take them: one round
    /// trip. If that fails, nothing is put aside.
    open spec fn enters(
        before: &Self,
        machine: &Robot<S>,
        after: &Self,
        changed: &Robot<S>,
        failed: Option<RobotError>,
    ) -> bool {
        &&& after == before
        &&& param_told(machine, changed, before.param, outcome_of(failed))
        &&& changed.default_param == machine.default_param
        &&& changed.params@ == if failed is None {
            params_entered(machine.params@, machine.default_param, before.param)
        } else {
            machine.params@
        }
    }

    /// Leaving takes the parameters set last off those put aside and tells
    /// the robot to take the ones that hold then: one round trip.
    open spec fn leaves(
        before: &Self,
        machine: &Robot<S>,
        after: &Self,
        changed: &Robot<S>,
        failed: Option<RobotError>,
    ) -> bool {
        &&& after == before
        &&& param_told(
            machine,
            changed,
            params_top(params_left(machine.params@), machine.default_param),
            outcome_of(failed),
        )
        &&& changed.default_param == machine.default_param
        &&& changed.params@ == params_left(machine.params@)
    }

    fn context_enter(&mut self, machine: &mut Robot<S>) -> (r: Result<(), RobotError>) {
        match machine.apply_param(self.param) {
            Ok(()) => {
                if machine.params.len() == 0 {
                    machine.params.push(machine.default_param);
                }
                machine.params.push(self.param);
                assert(machine.params@ =~= params_entered(
                    old(machine).params@,
                    old(machine).default_param,
                    self.param,
                ));
                Ok(())
            },
            Err(e) => Err(e),
        }
    }

    fn context_drop(&mut self, machine: &mut Robot<S>) -> (r: Result<(), RobotError>) {
        machine.params.pop();
        let n = machine.params.len();
        let top = if n == 0 {
            machine.default_param
        } else {
            machine.params[n - 1]
        };
        machine.apply_param(top)
    }

    /// A parameter context is named `param`.
    open spec fn named(&self, label: Seq<char>) -> bool {
        label == "param"@
    }

    fn label(&self) -> (s: String) {
        String::from_str("param")
    }
}

impl<S: Transport> Robot<S> {
    /// The taking of `motion_param`, as a context of the library: entering
    /// sets the parameters over those put aside and tells the robot to take
    /// them; closing the guard takes them off and tells the robot to take
    /// the ones that held before, as `ParamContext` says.
    pub fn with_set_param(&mut self, motion_param: MotionParam) -> (r: Result<
        ContextGuard<'_, Robot<S>, ParamContext>,
        RobotError,
    >)
        ensures
            match r {
                Ok(g) => {
                    &&& <ParamContext as Context<Robot<S>>>::enters(
                        &ParamContext { param: motion_param },
                        old(self),
                        &g.context,
                        g.guard,
                        None,
                    )
                    &&& *final(g.guard) == *final(self)
                },
                Err(e) => <ParamContext as Context<Robot<S>>>::enters(
                    &ParamContext { param: motion_param },
                    old(self),
                    &ParamContext { param: motion_param },
                    final(self),
                    Some(e),
                ),
            },
    {
        ContextGuard::new(self, ParamContext::new(motion_param))
    }
}

/// Any of the contexts of a robot, so that contexts of different kinds can
/// be entered on one `ContextMachine`.
#[derive(Debug, Clone, Copy)]
pub enum RobotContext {
    /// A motion that the library undoes.
    Motion(MotionContext),
    /// Motion parameters that the library puts back.
    Param(ParamContext),
    /// A context that the robot keeps itself.
    Remote(IvaContext),
}

impl<S: Transport> Context<Robot<S>> for RobotContext {
    type Error = RobotError;

    open spec fn enters(
        before: &Self,
        machine: &Robot<S>,
        after: &Self,
        changed: &Robot<S>,
        failed: Option<RobotError>,
    ) -> bool {
        match (*before, *after) {
            (RobotContext::Motion(b), RobotContext::Motion(a)) => <MotionContext as Context<
                Robot<S>,
            >>::enters(&b, machine, &a, changed, failed),
            (RobotContext::Param(b), RobotContext::Param(a)) => <ParamContext as Context<
                Robot<S>,
            >>::enters(&b, machine, &a, changed, failed),
            (RobotContext::Remote(b), RobotContext::Remote(a)) => <IvaContext as Context<
                Robot<S>,
            >>::enters(&b, machine, &a, changed, failed),
            _ => false,
        }
    }

    open spec fn leaves(
        before: &Self,
        machine: &Robot<S>,
        after: &Self,
        changed: &Robot<S>,
        failed: Option<RobotError>,
    ) -> bool {
        match (*before, *after) {
            (RobotContext::Motion(b), RobotContext::Motion(a)) => <MotionContext as Context<
                Robot<S>,
            >>::leaves(&b, machine, &a, changed, failed),
            (RobotContext::Param(b), RobotContext::Param(a)) => <ParamContext as Context<
                Robot<S>,
            >>::leaves(&b, machine, &a, changed, failed),
            (RobotContext::Remote(b), RobotContext::Remote(a)) => <IvaContext as Context<
                Robot<S>,
            >>::leaves(&b, machine, &a, changed, failed),
            _ => false,
        }
    }

    fn context_enter(&mut self, machine: &mut Robot<S>) -> (r: Result<(), RobotError>) {
        match self {
            RobotContext::Motion(c) => c.context_enter(machine),
            RobotContext::Param(c) => c.context_enter(machine),
            RobotContext::Remote(c) => c.context_enter(machine),
        }
    }

    fn context_drop(&mut self, machine: &mut Robot<S>) -> (r: Result<(), RobotError>) {
        match self {
            RobotContext::Motion(c) => c.context_drop(machine),
            RobotContext::Param(c) => c.context_drop(machine),
            RobotContext::Remote(c) => c.context_drop(machine),
        }
    }

    /// A context of a robot is named as the context that it holds.
    open spec fn named(&self, label: Seq<char>) -> bool {
        match *self {
            RobotContext::Motion(c) => <MotionContext as Context<Robot<S>>>::named(&c, label),
            RobotContext::Param(c) => <ParamContext as Context<Robot<S>>>::named(&c, label),
            RobotContext::Remote(c) => <IvaContext as Context<Robot<S>>>::named(&c, label),
        }
    }

    fn label(&self) -> (s: String) {
        match self {
            RobotContext::Motion(c) => <MotionContext as Context<Robot<S>>>::label(c),
            RobotContext::Param(c) => <ParamContext as Context<Robot<S>>>::label(c),
            RobotContext::Remote(c) => <IvaContext as Context<Robot<S>>>::label(c),
        }
    }
}

} // verus!
