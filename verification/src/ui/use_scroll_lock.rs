use vstd::prelude::*;

verus! {

/// What to do with the `style` attribute of the document body.
pub enum StyleAction {
    /// Leave the attribute as it is
    Keep,
    /// Set the attribute to this text
    Assign(String),
    /// Remove the attribute
    Remove,
}

/// A style action with its text as a character sequence.
pub enum StyleActionView {
    Keep,
    Assign(Seq<char>),
    Remove,
}

impl View for StyleAction {
    type V = StyleActionView;

    open spec fn view(&self) -> StyleActionView {
        match self {
            StyleAction::Keep => StyleActionView::Keep,
            StyleAction::Assign(s) => StyleActionView::Assign(s@),
            StyleAction::Remove => StyleActionView::Remove,
        }
    }
}

/// The body's `style` attribute after `action`, where `attr` is the attribute
/// before it (`None`: absent).
pub open spec fn apply_style(action: StyleActionView, attr: Option<Seq<char>>) -> Option<Seq<char>> {
    match action {
        StyleActionView::Keep => attr,
        StyleActionView::Assign(s) => Some(s),
        StyleActionView::Remove => None,
    }
}

/// The declarations that pin the body in place, for a window `width_px` wide.
pub open spec fn lock_declarations(width_px: Seq<char>) -> Seq<char> {
    "overflow: hidden; position: fixed; top: 0; right: 0; bottom: 0; left: 0; width: "@ + width_px + "px;"@
}

/// The style that locks scrolling, kept after the original style when there is one.
pub open spec fn locked_style(original: Seq<char>, width_px: Seq<char>) -> Seq<char> {
    if original.len() == 0 {
        lock_declarations(width_px)
    } else {
        original + "; "@ + lock_declarations(width_px)
    }
}

/// Whether scrolling is locked, and the body's style from before the lock.
pub struct ScrollLockModel {
    pub is_locked: bool,
    pub original: Seq<char>,
}

/// Locking from `m` when the body's style attribute is `attr`: the new state
/// and what to do with the attribute.
pub open spec fn spec_lock(m: ScrollLockModel, attr: Option<Seq<char>>, width_px: Seq<char>) -> (ScrollLockModel, StyleActionView) {
    if m.is_locked {
        (m, StyleActionView::Keep)
    } else {
        let original = match attr {
            Some(s) => s,
            None => Seq::<char>::empty(),
        };
        (ScrollLockModel { is_locked: true, original }, StyleActionView::Assign(locked_style(original, width_px)))
    }
}

/// Unlocking from `m`: the new state and what to do with the attribute.
pub open spec fn spec_unlock(m: ScrollLockModel) -> (ScrollLockModel, StyleActionView) {
    if !m.is_locked {
        (m, StyleActionView::Keep)
    } else if m.original.len() == 0 {
        (ScrollLockModel { is_locked: false, ..m }, StyleActionView::Remove)
    } else {
        (ScrollLockModel { is_locked: false, ..m }, StyleActionView::Assign(m.original))
    }
}

/// The `style` attribute as a character sequence.
pub open spec fn attr_view(attr: Option<String>) -> Option<Seq<char>> {
    match attr {
        Some(s) => Some(s@),
        None => None,
    }
}

/// Scroll locking of the document body: whether it is locked and the body's
/// style from before the lock.
pub struct ScrollLock {
    pub is_locked: bool,
    pub original_style: String,
}

impl View for ScrollLock {
    type V = ScrollLockModel;

    open spec fn view(&self) -> ScrollLockModel {
        ScrollLockModel { is_locked: self.is_locked, original: self.original_style@ }
    }
}

impl ScrollLock {
    /// An unlocked body.
    pub fn new() -> (l: Self)
        ensures
            l@ == (ScrollLockModel { is_locked: false, original: Seq::<char>::empty() }),
    {
        ScrollLock { is_locked: false, original_style: String::new() }
    }

    /// Locks scrolling. `current_style` is the body's `style` attribute and
    /// `width_px` the window's inner width as text. Does nothing when already locked.
    pub fn lock(&mut self, current_style: Option<String>, width_px: &str) -> (action: StyleAction)
        ensures
            (final(self)@, action@) == spec_lock(old(self)@, attr_view(current_style), width_px@),
    {
        if self.is_locked {
            return StyleAction::Keep;
        }
        let original = match current_style {
            Some(s) => s,
            None => String::new(),
        };
        let mut style = String::new();
        if !original.as_str().is_empty() {
            style.append(original.as_str());
            style.append("; ");
        }
        style.append("overflow: hidden; position: fixed; top: 0; right: 0; bottom: 0; left: 0; width: ");
        style.append(width_px);
        style.append("px;");
        assert(style@ =~= locked_style(original@, width_px@));
        self.original_style = original;
        self.is_locked = true;
        StyleAction::Assign(style)
    }

    /// Unlocks scrolling, restoring the original style (removing the
    /// attribute when it was empty). Does nothing when not locked.
    pub fn unlock(&mut self) -> (action: StyleAction)
        ensures
            (final(self)@, action@) == spec_unlock(old(self)@),
    {
        if !self.is_locked {
            return StyleAction::Keep;
        }
        let action = if self.original_style.as_str().is_empty() {
            StyleAction::Remove
        } else {
            StyleAction::Assign(self.original_style.clone())
        };
        self.is_locked = false;
        action
    }

    /// Unlocks when locked and locks otherwise.
    pub fn toggle(&mut self, current_style: Option<String>, width_px: &str) -> (action: StyleAction)
        ensures
            (final(self)@, action@) == if old(self).is_locked {
                spec_unlock(old(self)@)
            } else {
                spec_lock(old(self)@, attr_view(current_style), width_px@)
            },
    {
        if self.is_locked {
            self.unlock()
        } else {
            self.lock(current_style, width_px)
        }
    }
}

/// Locking and then unlocking gives the body back the `style` attribute it
/// had, unless that attribute was present but empty (unlocking then removes
/// it), and leaves scrolling unlocked again.
pub proof fn lemma_unlock_undoes_lock(m: ScrollLockModel, attr: Option<Seq<char>>, width_px: Seq<char>)
    requires
        !m.is_locked,
        !(attr matches Some(s) && s.len() == 0),
    ensures
        ({
            let (locked, lock_action) = spec_lock(m, attr, width_px);
            let (unlocked, unlock_action) = spec_unlock(locked);
            &&& locked.is_locked
            &&& !unlocked.is_locked
            &&& apply_style(unlock_action, apply_style(lock_action, attr)) == attr
        }),
{
}

/// Locking twice is locking once, and unlocking twice is unlocking once.
pub proof fn lemma_lock_unlock_idempotent(m: ScrollLockModel, attr: Option<Seq<char>>, attr2: Option<Seq<char>>, width_px: Seq<char>)
    ensures
        ({
            let (locked, _) = spec_lock(m, attr, width_px);
            let (locked_again, action) = spec_lock(locked, attr2, width_px);
            locked_again == locked && action == StyleActionView::Keep
        }),
        ({
            let (unlocked, _) = spec_unlock(m);
            let (unlocked_again, action) = spec_unlock(unlocked);
            unlocked_again == unlocked && action == StyleActionView::Keep
        }),
{
}

/// Locking an unlocked body remembers its style (none counts as empty) and
/// sets a style that starts with that style and ends with the declarations
/// that pin the body: `overflow: hidden; position: fixed` and the window
/// width in pixels.
pub proof fn lemma_lock_keeps_original_style(m: ScrollLockModel, attr: Option<Seq<char>>, width_px: Seq<char>)
    requires
        !m.is_locked,
    ensures
        ({
            let original = match attr { Some(s) => s, None => Seq::<char>::empty() };
            let (locked, action) = spec_lock(m, attr, width_px);
            &&& locked.is_locked
            &&& locked.original == original
            &&& action matches StyleActionView::Assign(style)
                && style.take(original.len() as int) == original
                && style.skip(style.len() - lock_declarations(width_px).len()) == lock_declarations(width_px)
            &&& lock_declarations(width_px).take(34) == "overflow: hidden; position: fixed;"@
            &&& lock_declarations(width_px).skip(lock_declarations(width_px).len() - width_px.len() - 3)
                == width_px + "px;"@
        }),
{
    let original = match attr { Some(s) => s, None => Seq::<char>::empty() };
    let decl = lock_declarations(width_px);
    let style = locked_style(original, width_px);
    reveal_strlit("overflow: hidden; position: fixed; top: 0; right: 0; bottom: 0; left: 0; width: ");
    reveal_strlit("overflow: hidden; position: fixed;");
    reveal_strlit("px;");
    reveal_strlit("; ");
    if original.len() == 0 {
        assert(style =~= decl);
        assert(style.take(0) =~= original);
        assert(style.skip(0) =~= decl);
    } else {
        assert(style.take(original.len() as int) =~= original);
        assert(style.skip(style.len() - decl.len()) =~= decl);
    }
    assert(decl.take(34) =~= "overflow: hidden; position: fixed;"@);
    assert(decl.skip(decl.len() - width_px.len() - 3) =~= width_px + "px;"@);
}

} // verus!
