//! The canvas: operator boxes, their input and output buttons, the
//! connection being drawn from an output button to an input button, the
//! connections made, and the connection under the mouse.

use vstd::prelude::*;
use crate::data::DataModel;
use crate::operator::{new_random_id, Operator, OperatorModel};

verus! {

broadcast use vstd::std_specs::vec::group_vec_axioms;

/// The name of an operator, on its row of the operator panel.
#[derive(Debug)]
pub struct OperatorName(pub String);

/// The entity of the operator that an input or output button belongs to.
#[derive(Debug, Clone, Copy)]
pub struct OperatorEntity(pub u64);

/// The entity of the name label of an operator box.
#[derive(Debug, Clone, Copy)]
pub struct OperatorNameEntity(pub u64);

/// The entities of the input and output buttons of an operator box.
#[derive(Debug, Clone, Copy)]
pub struct OpInputOutputButtonEntity {
    pub input_button_entity: Option<u64>,
    pub output_button_entity: Option<u64>,
}

/// The entity of the operator whose run indicator is shown.
#[derive(Debug, Clone, Copy)]
pub struct OperatorRunningCircular(pub u64);

/// The box of an operator on the canvas: the operator's id and name.
#[derive(Debug)]
pub struct OpBox {
    pub id: u128,
    pub name: String,
}

impl OpBox {
    pub fn new(id: u128, name: &str) -> (b: OpBox)
        ensures
            b.id == id,
            b.name@ == name@,
    {
        OpBox { id, name: String::from_str(name) }
    }
}

#[derive(Clone, Copy, Debug, PartialEq, Eq, Structural)]
pub enum OpConnectButtonType {
    Unset,
    Input,
    Output,
}

impl Default for OpConnectButtonType {
    fn default() -> (r: Self)
        ensures
            r == OpConnectButtonType::Unset,
    {
        OpConnectButtonType::Unset
    }
}

/// An input or output button of an operator box.
#[derive(Debug)]
pub struct OpConnectButton {
    pub connected: bool,
    pub button_type: OpConnectButtonType,
}

impl OpConnectButton {
    pub fn new_as_input() -> (b: OpConnectButton)
        ensures
            !b.connected,
            b.button_type == OpConnectButtonType::Input,
    {
        OpConnectButton { connected: false, button_type: OpConnectButtonType::Input }
    }

    pub fn new_as_output() -> (b: OpConnectButton)
        ensures
            !b.connected,
            b.button_type == OpConnectButtonType::Output,
    {
        OpConnectButton { connected: false, button_type: OpConnectButtonType::Output }
    }
}

impl Default for OpConnectButton {
    fn default() -> (b: Self)
        ensures
            !b.connected,
            b.button_type == OpConnectButtonType::Unset,
    {
        OpConnectButton { connected: false, button_type: OpConnectButtonType::Unset }
    }
}

/// A line between an input button and an output button.
#[derive(Debug)]
pub struct OpConnectionLine {
    pub input_button_entity: Option<u64>,
    pub output_button_entity: Option<u64>,
}

impl OpConnectionLine {
    pub fn new(input_entity: Option<u64>, output_entity: Option<u64>) -> (l: OpConnectionLine)
        ensures
            l.input_button_entity == input_entity,
            l.output_button_entity == output_entity,
    {
        OpConnectionLine { input_button_entity: input_entity, output_button_entity: output_entity }
    }
}

/// The connection being drawn. It always starts at an output button and
/// ends at an input button.
#[derive(Debug)]
pub struct OpLineConnectionState {
    pub output_button_entity: Option<u64>,
    pub output_button_type: OpConnectButtonType,
    pub input_button_entity: Option<u64>,
    pub input_button_type: OpConnectButtonType,
    pub input_button_is_hovering: bool,
}

/// No connection is being drawn.
pub open spec fn is_idle(s: OpLineConnectionState) -> bool {
    &&& s.output_button_entity is None
    &&& s.output_button_type == OpConnectButtonType::Unset
    &&& s.input_button_entity is None
    &&& s.input_button_type == OpConnectButtonType::Unset
    &&& !s.input_button_is_hovering
}

impl Default for OpLineConnectionState {
    fn default() -> (s: Self)
        ensures
            is_idle(s),
    {
        OpLineConnectionState {
            output_button_entity: None,
            output_button_type: OpConnectButtonType::Unset,
            input_button_entity: None,
            input_button_type: OpConnectButtonType::Unset,
            input_button_is_hovering: false,
        }
    }
}

/// What to do with the connection curve that follows the mouse.
#[derive(Debug)]
pub enum TempCurveAction {
    /// No connection is being drawn: drop the curve.
    Clear,
    /// The connection has reached an input button: leave the curve as it is.
    Keep,
    /// Draw the curve from this output button to the mouse.
    FollowFrom(u64),
}

impl OpLineConnectionState {
    /// Back to drawing nothing.
    pub fn reset(&mut self)
        ensures
            is_idle(*final(self)),
    {
        *self = OpLineConnectionState::default();
    }

    /// An output button was clicked: a new connection starts there.
    pub fn begin_at_output(&mut self, button: u64, button_type: OpConnectButtonType)
        ensures
            final(self).output_button_entity == Some(button),
            final(self).output_button_type == button_type,
            final(self).input_button_entity is None,
            final(self).input_button_type == OpConnectButtonType::Unset,
            !final(self).input_button_is_hovering,
    {
        self.reset();
        self.output_button_entity = Some(button);
        self.output_button_type = button_type;
    }

    /// The mouse went over (`true`) or out of (`false`) an input button;
    /// this counts only while a connection is being drawn.
    pub fn hover_input(&mut self, over: bool)
        ensures
            final(self).input_button_is_hovering == (if old(self).output_button_entity is Some {
                over
            } else {
                old(self).input_button_is_hovering
            }),
            final(self).output_button_entity == old(self).output_button_entity,
            final(self).output_button_type == old(self).output_button_type,
            final(self).input_button_entity == old(self).input_button_entity,
            final(self).input_button_type == old(self).input_button_type,
    {
        if self.output_button_entity.is_some() {
            self.input_button_is_hovering = over;
        }
    }

    /// An input button was clicked. When a connection is being drawn and
    /// the mouse is over an input button, the connection ends here: the
    /// answer is the output button it started at, and the state is reset.
    /// Otherwise nothing changes and the answer is `None`.
    pub fn finish_at_input(&mut self, button: u64, button_type: OpConnectButtonType) -> (from:
        Option<u64>)
        ensures
            old(self).output_button_entity is Some && old(self).input_button_is_hovering ==> from
                == old(self).output_button_entity && is_idle(*final(self)),
            !(old(self).output_button_entity is Some && old(self).input_button_is_hovering) ==> from
                is None && *final(self) == *old(self),
    {
        match self.output_button_entity {
            Some(out) => {
                if self.input_button_is_hovering {
                    self.input_button_entity = Some(button);
                    self.input_button_type = button_type;
                    self.reset();
                    Some(out)
                } else {
                    None
                }
            },
            None => None,
        }
    }

    /// A mouse button was pressed (`left` tells which, `pressed` whether it
    /// went down). A left press away from an input button cancels the
    /// connection being drawn; the answer tells whether it did.
    pub fn press_mouse(&mut self, left: bool, pressed: bool) -> (cancelled: bool)
        ensures
            cancelled == (left && pressed && !old(self).input_button_is_hovering),
            cancelled ==> is_idle(*final(self)),
            !cancelled ==> *final(self) == *old(self),
    {
        if left && pressed && !self.input_button_is_hovering {
            self.reset();
            true
        } else {
            false
        }
    }

    /// What to do with the curve that follows the mouse.
    pub fn temp_curve_action(&self) -> (a: TempCurveAction)
        ensures
            match self.output_button_entity {
                None => a is Clear,
                Some(out) => if self.input_button_entity is Some {
                    a is Keep
                } else {
                    a == TempCurveAction::FollowFrom(out)
                },
            },
    {
        match self.output_button_entity {
            None => TempCurveAction::Clear,
            Some(out) => if self.input_button_entity.is_some() {
                TempCurveAction::Keep
            } else {
                TempCurveAction::FollowFrom(out)
            },
        }
    }
}

/// A connection from an output button to an input button.
#[derive(Debug)]
pub struct Connection {
    pub id: u128,
    pub out_entity: u64,
    pub in_entity: u64,
}

/// The connections made, in the order they were made.
#[derive(Debug)]
pub struct ConnectedCurves(pub Vec<Connection>);

pub open spec fn connection_triples(v: Seq<Connection>) -> Seq<(u128, u64, u64)> {
    Seq::new(v.len(), |i: int| (v[i].id, v[i].out_entity, v[i].in_entity))
}

/// Position of the first connection of `v` with id `id`.
pub open spec fn first_connection(v: Seq<(u128, u64, u64)>, id: u128) -> Option<int> {
    if exists|i: int| 0 <= i < v.len() && #[trigger] v[i].0 == id {
        Some(
            choose|i: int|
                0 <= i < v.len() && #[trigger] v[i].0 == id && forall|j: int|
                    0 <= j < i ==> v[j].0 != id,
        )
    } else {
        None
    }
}

/// The connection under the mouse, and the close icon shown on it.
#[derive(Debug)]
pub struct HoveredCurve {
    pub id: Option<u128>,
    pub close_icon_entity: Option<u64>,
}

/// What the hover check of one connection asks for.
#[derive(Debug)]
pub enum HoverAction {
    /// Nothing changes.
    Nothing,
    /// The mouse left the connections: take this close icon away.
    HideIcon(u64),
    /// The mouse is over a connection and no icon is shown: show one.
    ShowIcon,
}

impl Default for HoveredCurve {
    fn default() -> (h: Self)
        ensures
            h.id is None,
            h.close_icon_entity is None,
    {
        HoveredCurve { id: None, close_icon_entity: None }
    }
}

impl HoveredCurve {
    /// A close icon (entity `icon`) is now shown on the connection `id`,
    /// which the mouse is over.
    pub fn show_icon(&mut self, icon: u64, id: u128)
        ensures
            final(self).close_icon_entity == Some(icon),
            final(self).id == Some(id),
    {
        self.close_icon_entity = Some(icon);
        self.id = Some(id);
    }

    pub fn reset(&mut self)
        ensures
            final(self).id is None,
            final(self).close_icon_entity is None,
    {
        self.id = None;
        self.close_icon_entity = None;
    }

    /// After checking a connection against the mouse (`is_hovered` tells
    /// whether the mouse has been found over a connection so far): with the
    /// mouse away, a shown icon is taken away and the state reset; with the
    /// mouse over, an icon is asked for when none is shown.
    pub fn hover_action(&mut self, is_hovered: bool) -> (a: HoverAction)
        ensures
            !is_hovered && old(self).close_icon_entity is Some ==> a == HoverAction::HideIcon(
                old(self).close_icon_entity->0,
            ) && final(self).id is None && final(self).close_icon_entity is None,
            is_hovered && old(self).close_icon_entity is None ==> a is ShowIcon && *final(self)
                == *old(self),
            (is_hovered == old(self).close_icon_entity is Some) ==> a is Nothing && *final(self)
                == *old(self),
    {
        match self.close_icon_entity {
            Some(icon) => {
                if !is_hovered {
                    self.reset();
                    HoverAction::HideIcon(icon)
                } else {
                    HoverAction::Nothing
                }
            },
            None => {
                if is_hovered {
                    HoverAction::ShowIcon
                } else {
                    HoverAction::Nothing
                }
            },
        }
    }
}

impl ConnectedCurves {
    pub fn new() -> (c: ConnectedCurves)
        ensures
            c.0@.len() == 0,
    {
        ConnectedCurves(Vec::new())
    }

    /// Records a connection from `out_entity` to `in_entity` under a new
    /// random id, and hands back that id.
    pub fn connect(&mut self, out_entity: u64, in_entity: u64) -> (id: u128)
        ensures
            connection_triples(final(self).0@) == connection_triples(old(self).0@).push(
                (id, out_entity, in_entity),
            ),
    {
        let id = new_random_id();
        let ghost before = connection_triples(self.0@);
        self.0.push(Connection { id, out_entity, in_entity });
        assert(connection_triples(self.0@) =~= before.push((id, out_entity, in_entity)));
        id
    }

    /// The close icon `clicked` was clicked. When it is the icon shown on
    /// the hovered connection, the first connection with the hovered id is
    /// taken out, the hover state is reset, and the answer is the icon to
    /// take away. Otherwise nothing changes and the answer is `None`.
    pub fn remove_hovered(&mut self, hovered: &mut HoveredCurve, clicked: u64) -> (icon: Option<
        u64,
    >)
        ensures
            ({
                let before = connection_triples(old(self).0@);
                match (old(hovered).close_icon_entity, old(hovered).id) {
                    (Some(ic), Some(hid)) => if clicked == ic && first_connection(before, hid) is Some {
                        &&& icon == Some(ic)
                        &&& connection_triples(final(self).0@) == before.remove(
                            first_connection(before, hid)->0,
                        )
                        &&& final(hovered).id is None
                        &&& final(hovered).close_icon_entity is None
                    } else {
                        &&& icon is None
                        &&& connection_triples(final(self).0@) == before
                        &&& *final(hovered) == *old(hovered)
                    },
                    _ => {
                        &&& icon is None
                        &&& connection_triples(final(self).0@) == before
                        &&& *final(hovered) == *old(hovered)
                    },
                }
            }),
    {
        let ghost before = connection_triples(self.0@);
        let icon = match hovered.close_icon_entity {
            Some(i) => i,
            None => {
                return None;
            },
        };
        let hid = match hovered.id {
            Some(h) => h,
            None => {
                return None;
            },
        };
        if clicked != icon {
            return None;
        }
        let mut i: usize = 0;
        while i < self.0.len()
            invariant
                i <= self.0@.len(),
                connection_triples(self.0@) == before,
                before == connection_triples(old(self).0@),
                *hovered == *old(hovered),
                hovered.close_icon_entity == Some(icon),
                hovered.id == Some(hid),
                clicked == icon,
                forall|j: int| 0 <= j < i ==> before[j].0 != hid,
            decreases self.0@.len() - i,
        {
            if self.0[i].id == hid {
                self.0.remove(i);
                proof {
                    assert(before[i as int].0 == hid);
                    assert(exists|k: int|
                        0 <= k < before.len() && #[trigger] before[k].0 == hid && forall|j: int|
                            0 <= j < k ==> before[j].0 != hid);
                    let k = choose|k: int|
                        0 <= k < before.len() && #[trigger] before[k].0 == hid && forall|j: int|
                            0 <= j < k ==> before[j].0 != hid;
                    assert(k == i) by {
                        if k < i {
                            assert(before[k].0 != hid);
                        } else if k > i {
                            assert(before[i as int].0 != hid);
                        }
                    }
                    assert(connection_triples(self.0@) =~= before.remove(i as int));
                }
                hovered.reset();
                return Some(icon);
            }
            i = i + 1;
        }
        assert(!exists|k: int| 0 <= k < before.len() && #[trigger] before[k].0 == hid);
        None
    }
}

impl Operator {
    /// The connection from this operator's output button ends at the input
    /// button of `next`: `next` runs after this operator, and this operator
    /// starts a chain exactly when it takes no input.
    pub fn link_to(&mut self, next: Option<u64>)
        ensures
            final(self)@ == (OperatorModel {
                next_operator: next,
                is_first_operator: old(self)@.input is Empty,
                ..old(self)@
            }),
    {
        self.is_first_operator = false;
        self.next_operator = next;
        if self.input.is_empty() {
            self.is_first_operator = true;
        }
    }
}

} // verus!
