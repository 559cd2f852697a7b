use vstd::prelude::*;

use super::ShaderEffect;

verus! {

/// The abstract state of an [`EffectRegistry`]: the two preset lists, the mode
/// flag and the selection kept for each list.
pub struct RegistryView<E> {
    pub desktop: Seq<E>,
    pub mobile: Seq<E>,
    pub is_mobile: bool,
    pub desktop_index: nat,
    pub mobile_index: nat,
}

impl<E> RegistryView<E> {
    /// The mobile list is in use only in mobile mode and only once it holds a
    /// preset; otherwise the desktop list serves.
    pub open spec fn uses_mobile(self) -> bool {
        self.is_mobile && self.mobile.len() > 0
    }

    /// The list the registry currently serves.
    pub open spec fn current(self) -> Seq<E> {
        if self.uses_mobile() {
            self.mobile
        } else {
            self.desktop
        }
    }

    /// The selection in the list the registry currently serves.
    pub open spec fn active_index(self) -> nat {
        if self.uses_mobile() {
            self.mobile_index
        } else {
            self.desktop_index
        }
    }

    /// The preset that is active (meaningful when the current list is not empty).
    pub open spec fn active(self) -> E {
        self.current()[self.active_index() as int]
    }

    /// Each selection either points into its list or is the initial 0.
    pub open spec fn wf(self) -> bool {
        &&& (self.desktop_index == 0 || self.desktop_index < self.desktop.len())
        &&& (self.mobile_index == 0 || self.mobile_index < self.mobile.len())
    }

    /// The registry that has no preset, in desktop mode, with both selections at 0.
    pub open spec fn empty() -> RegistryView<E> {
        RegistryView {
            desktop: Seq::empty(),
            mobile: Seq::empty(),
            is_mobile: false,
            desktop_index: 0,
            mobile_index: 0,
        }
    }

    /// `e` appended to the desktop list.
    pub open spec fn with_desktop(self, e: E) -> RegistryView<E> {
        RegistryView { desktop: self.desktop.push(e), ..self }
    }

    /// `e` appended to the mobile list.
    pub open spec fn with_mobile(self, e: E) -> RegistryView<E> {
        RegistryView { mobile: self.mobile.push(e), ..self }
    }

    /// The mode flag set to `is_mobile`; lists and selections unchanged.
    pub open spec fn with_mode(self, is_mobile: bool) -> RegistryView<E> {
        RegistryView { is_mobile, ..self }
    }

    /// The selection of the list in use set to `index`.
    pub open spec fn select(self, index: nat) -> RegistryView<E> {
        if self.uses_mobile() {
            RegistryView { mobile_index: index, ..self }
        } else {
            RegistryView { desktop_index: index, ..self }
        }
    }

    /// The list in use with `e` in place of its active preset.
    pub open spec fn with_active(self, e: E) -> RegistryView<E> {
        if self.uses_mobile() {
            RegistryView { mobile: self.mobile.update(self.mobile_index as int, e), ..self }
        } else {
            RegistryView { desktop: self.desktop.update(self.desktop_index as int, e), ..self }
        }
    }

    /// The list in use replaced by `list`.
    pub open spec fn with_current(self, list: Seq<E>) -> RegistryView<E> {
        if self.uses_mobile() {
            RegistryView { mobile: list, ..self }
        } else {
            RegistryView { desktop: list, ..self }
        }
    }
}

/// The message of the error that [`EffectRegistry::switch_effect`] returns.
pub const OUT_OF_BOUNDS_MESSAGE: &'static str = "Shader effect index out of bounds";

/// Holds the desktop and the mobile presets and the selection in each.
///
/// In mobile mode the mobile list is served, unless it is empty, in which case
/// the desktop list serves in its place. Each list keeps its own selection, so
/// switching the mode back and forth keeps the preset chosen in each.
pub struct EffectRegistry<E> {
    desktop_effects: Vec<E>,
    mobile_effects: Vec<E>,
    is_mobile: bool,
    desktop_index: usize,
    mobile_index: usize,
}

impl<E> View for EffectRegistry<E> {
    type V = RegistryView<E>;

    closed spec fn view(&self) -> RegistryView<E> {
        RegistryView {
            desktop: self.desktop_effects@,
            mobile: self.mobile_effects@,
            is_mobile: self.is_mobile,
            desktop_index: self.desktop_index as nat,
            mobile_index: self.mobile_index as nat,
        }
    }
}

impl<E> Default for EffectRegistry<E> {
    fn default() -> (r: Self)
        ensures
            r@ == RegistryView::<E>::empty(),
            r.wf(),
    {
        Self::new()
    }
}

impl<E> EffectRegistry<E> {
    pub open spec fn wf(&self) -> bool {
        self@.wf()
    }

    pub fn new() -> (r: Self)
        ensures
            r@ == RegistryView::<E>::empty(),
            r.wf(),
    {
        EffectRegistry {
            desktop_effects: Vec::new(),
            mobile_effects: Vec::new(),
            is_mobile: false,
            desktop_index: 0,
            mobile_index: 0,
        }
    }

    /// Appends a desktop preset.
    pub fn register(&mut self, effect: E)
        requires
            old(self).wf(),
        ensures
            final(self)@ == old(self)@.with_desktop(effect),
            final(self).wf(),
    {
        self.desktop_effects.push(effect);
    }

    /// Appends a mobile preset.
    pub fn register_mobile(&mut self, effect: E)
        requires
            old(self).wf(),
        ensures
            final(self)@ == old(self)@.with_mobile(effect),
            final(self).wf(),
    {
        self.mobile_effects.push(effect);
    }

    pub fn is_mobile(&self) -> (r: bool)
        ensures
            r == self@.is_mobile,
    {
        self.is_mobile
    }

    /// Sets the mode; both lists and both selections stay as they are.
    pub fn set_mobile_mode(&mut self, is_mobile: bool)
        requires
            old(self).wf(),
        ensures
            final(self)@ == old(self)@.with_mode(is_mobile),
            final(self).wf(),
    {
        self.is_mobile = is_mobile;
    }

    fn uses_mobile(&self) -> (r: bool)
        ensures
            r == self@.uses_mobile(),
    {
        self.is_mobile && self.mobile_effects.len() > 0
    }

    fn current_effects(&self) -> (r: &Vec<E>)
        ensures
            r@ == self@.current(),
    {
        if self.uses_mobile() {
            &self.mobile_effects
        } else {
            &self.desktop_effects
        }
    }

    /// The number of presets in the list in use.
    pub fn effects_count(&self) -> (r: usize)
        ensures
            r == self@.current().len(),
    {
        self.current_effects().len()
    }

    /// The selection in the list in use.
    pub fn active_index(&self) -> (r: usize)
        ensures
            r == self@.active_index(),
    {
        if self.uses_mobile() {
            self.mobile_index
        } else {
            self.desktop_index
        }
    }

    /// The active preset; the list in use must hold one.
    pub fn active_effect(&self) -> (r: &E)
        requires
            self.wf(),
            self@.current().len() > 0,
        ensures
            *r == self@.active(),
    {
        let idx = self.active_index();
        &self.current_effects()[idx]
    }

    fn current_effects_mut(&mut self) -> (r: &mut Vec<E>)
        ensures
            (*r)@ == old(self)@.current(),
            final(self)@ == old(self)@.with_current((*final(r))@),
    {
        if self.is_mobile && self.mobile_effects.len() > 0 {
            &mut self.mobile_effects
        } else {
            &mut self.desktop_effects
        }
    }

    /// The active preset, to be changed in place; the list in use must hold one.
    pub fn active_effect_mut(&mut self) -> (r: &mut E)
        requires
            old(self).wf(),
            old(self)@.current().len() > 0,
        ensures
            *r == old(self)@.active(),
            final(self)@ == old(self)@.with_active(*final(r)),
            final(self).wf(),
    {
        let idx = self.active_index();
        let effects = self.current_effects_mut();
        &mut effects[idx]
    }

    /// Selects the preset at `index` of the list in use, when there is one.
    pub fn switch_effect(&mut self, index: usize) -> (r: Result<(), &'static str>)
        requires
            old(self).wf(),
        ensures
            r is Ok <==> index < old(self)@.current().len(),
            r is Ok ==> final(self)@ == old(self)@.select(index as nat),
            r matches Err(msg) ==> final(self)@ == old(self)@ && msg@ == OUT_OF_BOUNDS_MESSAGE@,
            final(self).wf(),
    {
        let count = self.current_effects().len();
        if index >= count {
            return Err(OUT_OF_BOUNDS_MESSAGE);
        }
        if self.uses_mobile() {
            self.mobile_index = index;
        } else {
            self.desktop_index = index;
        }
        Ok(())
    }
}

impl<E: ShaderEffect> EffectRegistry<E> {
    /// The names of the presets of the list in use, in order.
    pub fn effect_names(&self) -> (r: Vec<&'static str>)
        ensures
            r@.len() == self@.current().len(),
            forall|i: int| 0 <= i < r@.len() ==> (#[trigger] r@[i])@ == self@.current()[i].spec_name(),
    {
        let effects = self.current_effects();
        let mut names: Vec<&'static str> = Vec::new();
        let n = effects.len();
        for i in 0..n
            invariant
                n == effects@.len(),
                effects@ == self@.current(),
                names@.len() == i,
                forall|j: int| 0 <= j < i ==> (#[trigger] names@[j])@ == effects@[j].spec_name(),
        {
            names.push(effects[i].name());
        }
        names
    }
}

/// Every operation keeps a registry well formed: a new registry is, and
/// registering, setting the mode, and selecting an index that is in range keep it.
pub proof fn law_operations_keep_well_formed<E>(v: RegistryView<E>, e: E, m: bool, i: nat)
    requires
        v.wf(),
    ensures
        RegistryView::<E>::empty().wf(),
        v.with_desktop(e).wf(),
        v.with_mobile(e).wf(),
        v.with_mode(m).wf(),
        i < v.current().len() ==> v.select(i).wf(),
        v.current().len() > 0 ==> v.with_active(e).wf(),
{
}

/// When the list in use holds a preset, the selection points into it.
pub proof fn law_active_in_bounds<E>(v: RegistryView<E>)
    requires
        v.wf(),
        v.current().len() > 0,
    ensures
        v.active_index() < v.current().len(),
{
}

/// Selecting an index in range makes the preset at that index the active one,
/// and the list in use stays the same.
pub proof fn law_select_activates<E>(v: RegistryView<E>, i: nat)
    requires
        v.wf(),
        i < v.current().len(),
    ensures
        v.select(i).current() == v.current(),
        v.select(i).active_index() == i,
        v.select(i).active() == v.current()[i as int],
{
}

/// In mobile mode with no mobile preset, the desktop list and its selection serve.
pub proof fn law_mobile_falls_back_to_desktop<E>(v: RegistryView<E>)
    requires
        v.is_mobile,
        v.mobile.len() == 0,
    ensures
        v.current() == v.desktop,
        v.active_index() == v.desktop_index,
{
}

/// Setting the mode and setting it back gives the registry it started from.
pub proof fn law_mode_round_trip<E>(v: RegistryView<E>, m: bool)
    ensures
        v.with_mode(m).with_mode(v.is_mobile) == v,
{
}

/// A selection made in one mode does not touch the other mode's selection:
/// going back to desktop mode after choosing a mobile preset finds the desktop
/// preset that was active before, and the other way round.
pub proof fn law_modes_keep_their_selection<E>(v: RegistryView<E>, i: nat)
    requires
        v.wf(),
    ensures
        v.mobile.len() > 0 ==> {
            let back = v.with_mode(true).select(i).with_mode(false);
            &&& back.current() == v.with_mode(false).current()
            &&& back.active_index() == v.with_mode(false).active_index()
        },
        v.mobile.len() > 0 ==> {
            let back = v.with_mode(false).select(i).with_mode(true);
            &&& back.current() == v.with_mode(true).current()
            &&& back.active_index() == v.with_mode(true).active_index()
        },
{
}

/// Registering a preset does not change which preset is active, except for
/// the first mobile preset registered in mobile mode, which takes over from the
/// desktop list.
pub proof fn law_register_keeps_active<E>(v: RegistryView<E>, e: E)
    requires
        v.wf(),
        v.current().len() > 0,
    ensures
        v.with_desktop(e).active() == v.active(),
        v.with_desktop(e).active_index() == v.active_index(),
        (!v.is_mobile || v.mobile.len() > 0) ==> v.with_mobile(e).active() == v.active(),
        (v.is_mobile && v.mobile.len() == 0) ==> v.with_mobile(e).active() == e,
{
}

} // verus!
