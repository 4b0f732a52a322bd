//! The entries of a menu: what each kind shows and what activating it does.
use vstd::prelude::*;

verus! {

/// What activating an entry reports: the entry's identifier and, for
/// checkboxes and selectors, the state it was left in.
#[derive(Clone, Copy, PartialEq, Debug)]
pub enum SelectedData<T> {
    Checkbox { id: T, state: bool },
    Submenu { id: T },
    Back { id: T },
    MultiOption { id: T, option_id: usize },
    Section { id: T },
    Action { id: T },
    Exit { id: T },
}

/// The label and identifier every entry carries.
pub trait MenuItem<T>: Sized {
    /// The label, as characters.
    spec fn label_view(&self) -> Seq<char>;

    /// The caller's identifier of the entry.
    spec fn id_view(&self) -> T;

    fn label(&self) -> (r: &'static str)
        ensures
            r@ == self.label_view(),
    ;

    fn id(&self) -> (r: T)
        ensures
            r == self.id_view(),
    ;
}

/// Activation and the text shown beside the label.
pub trait MenuItemData<T>: Sized {
    /// What the entry's state must satisfy to be shown and activated.
    spec fn inv(&self) -> bool;

    /// The entry after one activation.
    spec fn activated(&self) -> Self;

    /// What one activation reports.
    spec fn selection(&self) -> SelectedData<T>;

    /// The text that stands for the entry's state.
    spec fn display(&self) -> Seq<char>;

    /// Activates the entry: changes its state, if it has one, and reports.
    fn selected(&mut self) -> (r: SelectedData<T>)
        requires
            old(self).inv(),
        ensures
            final(self).inv(),
            *final(self) == old(self).activated(),
            r == old(self).selection(),
    ;

    fn display_string(&self) -> (r: &str)
        requires
            self.inv(),
        ensures
            r@ == self.display(),
    ;
}

/// The mark a checkbox shows for its state.
pub open spec fn checkbox_mark(state: bool) -> Seq<char> {
    if state {
        "[X]"@
    } else {
        "[ ]"@
    }
}

/// The option index a selector moves to from `index` over `len` options:
/// the next one, wrapping to the first.
pub open spec fn next_option(index: nat, len: nat) -> nat {
    if index + 1 >= len {
        0
    } else {
        index + 1
    }
}

/// The starting option of a selector: the one asked for, or the last one
/// when the index asked for is out of range.
pub open spec fn clamped_option(initial: nat, len: nat) -> nat {
    if initial < len {
        initial
    } else {
        (len - 1) as nat
    }
}

/// An on/off entry; it starts off.
#[derive(Clone, Copy, PartialEq, Debug)]
pub struct CheckboxItem<T> {
    label: &'static str,
    checkbox_state: bool,
    id: T,
}

impl<T: Copy> CheckboxItem<T> {
    /// Whether the box is checked.
    pub closed spec fn checked(&self) -> bool {
        self.checkbox_state
    }

    pub fn new(label: &'static str, id: T) -> (r: Self)
        ensures
            r.label_view() == label@,
            r.id_view() == id,
            !r.checked(),
    {
        CheckboxItem { label, checkbox_state: false, id }
    }

    /// Activation flips the state and keeps the label and identifier.
    pub proof fn lemma_activated(&self)
        ensures
            self.activated().checked() == !self.checked(),
            self.activated().label_view() == self.label_view(),
            self.activated().id_view() == self.id_view(),
    {
    }

    /// Activating a checkbox twice gives back the checkbox it was, and so
    /// the text it showed.
    pub proof fn lemma_activation_involution(&self)
        ensures
            self.activated().activated() == *self,
            self.activated().activated().display() == self.display(),
    {
    }
}

impl<T: Copy> MenuItem<T> for CheckboxItem<T> {
    closed spec fn label_view(&self) -> Seq<char> {
        self.label@
    }

    closed spec fn id_view(&self) -> T {
        self.id
    }

    fn label(&self) -> (r: &'static str) {
        self.label
    }

    fn id(&self) -> (r: T) {
        self.id
    }
}

impl<T: Copy> MenuItemData<T> for CheckboxItem<T> {
    open spec fn inv(&self) -> bool {
        true
    }

    closed spec fn activated(&self) -> Self {
        CheckboxItem { checkbox_state: !self.checkbox_state, ..*self }
    }

    open spec fn selection(&self) -> SelectedData<T> {
        SelectedData::Checkbox { id: self.id_view(), state: !self.checked() }
    }

    open spec fn display(&self) -> Seq<char> {
        checkbox_mark(self.checked())
    }

    fn selected(&mut self) -> (r: SelectedData<T>) {
        self.checkbox_state = !self.checkbox_state;
        SelectedData::Checkbox { id: self.id, state: self.checkbox_state }
    }

    fn display_string(&self) -> (r: &str) {
        if self.checkbox_state {
            "[X]"
        } else {
            "[ ]"
        }
    }
}

/// An entry that cycles through a list of option labels.
#[derive(PartialEq, Debug)]
pub struct MultiOptionItem<'a, T> {
    label: &'static str,
    current_option_index: usize,
    options: &'a [&'static str],
    id: T,
}

impl<'a, T: Copy> MultiOptionItem<'a, T> {
    /// The index of the current option.
    pub closed spec fn option_index(&self) -> nat {
        self.current_option_index as nat
    }

    /// The option labels, in order.
    pub closed spec fn options_view(&self) -> Seq<&'static str> {
        self.options@
    }

    /// A selector at `initial_option`, or at its last option when
    /// `initial_option` is out of range.
    pub fn new(label: &'static str, id: T, options: &'a [&'static str], initial_option: usize) -> (r:
        Self)
        requires
            options@.len() > 0,
        ensures
            r.label_view() == label@,
            r.id_view() == id,
            r.options_view() == options@,
            r.option_index() == clamped_option(initial_option as nat, options@.len()),
            r.inv(),
    {
        let current_option_index = if initial_option < options.len() {
            initial_option
        } else {
            options.len() - 1
        };
        MultiOptionItem { label, current_option_index, options, id }
    }

    /// Activation moves to the next option, wrapping, and keeps the
    /// options, label and identifier.
    pub proof fn lemma_activated(&self)
        requires
            self.inv(),
        ensures
            self.activated().option_index() == next_option(
                self.option_index(),
                self.options_view().len(),
            ),
            self.activated().options_view() == self.options_view(),
            self.activated().label_view() == self.label_view(),
            self.activated().id_view() == self.id_view(),
            self.activated().inv(),
    {
    }
}

impl<'a, T: Copy> MenuItem<T> for MultiOptionItem<'a, T> {
    closed spec fn label_view(&self) -> Seq<char> {
        self.label@
    }

    closed spec fn id_view(&self) -> T {
        self.id
    }

    fn label(&self) -> (r: &'static str) {
        self.label
    }

    fn id(&self) -> (r: T) {
        self.id
    }
}

impl<'a, T: Copy> MenuItemData<T> for MultiOptionItem<'a, T> {
    /// The current option lies among the options.
    open spec fn inv(&self) -> bool {
        &&& self.option_index() < self.options_view().len()
        &&& self.options_view().len() <= usize::MAX
    }

    closed spec fn activated(&self) -> Self {
        MultiOptionItem {
            current_option_index: next_option(
                self.current_option_index as nat,
                self.options@.len(),
            ) as usize,
            ..*self
        }
    }

    open spec fn selection(&self) -> SelectedData<T> {
        SelectedData::MultiOption {
            id: self.id_view(),
            option_id: next_option(self.option_index(), self.options_view().len()) as usize,
        }
    }

    open spec fn display(&self) -> Seq<char> {
        self.options_view()[self.option_index() as int]@
    }

    /// Moves to the next option, wrapping, and keeps the label,
    /// identifier and options.
    fn selected(&mut self) -> (r: SelectedData<T>)
        ensures
            final(self).option_index() == next_option(
                old(self).option_index(),
                old(self).options_view().len(),
            ),
            final(self).options_view() == old(self).options_view(),
            final(self).label_view() == old(self).label_view(),
            final(self).id_view() == old(self).id_view(),
    {
        if self.options.len() - self.current_option_index <= 1 {
            self.current_option_index = 0;
        } else {
            self.current_option_index = self.current_option_index + 1;
        }
        SelectedData::MultiOption { id: self.id, option_id: self.current_option_index }
    }

    fn display_string(&self) -> (r: &str) {
        self.options[self.current_option_index]
    }
}

/// A heading inside a level; the cursor passes over it.
#[derive(Clone, Copy, PartialEq, Debug)]
pub struct SectionItem<T> {
    label: &'static str,
    id: T,
}

impl<T: Copy> SectionItem<T> {
    pub fn new(label: &'static str, id: T) -> (r: Self)
        ensures
            r.label_view() == label@,
            r.id_view() == id,
    {
        SectionItem { label, id }
    }
}

impl<T: Copy> MenuItem<T> for SectionItem<T> {
    closed spec fn label_view(&self) -> Seq<char> {
        self.label@
    }

    closed spec fn id_view(&self) -> T {
        self.id
    }

    fn label(&self) -> (r: &'static str) {
        self.label
    }

    fn id(&self) -> (r: T) {
        self.id
    }
}

impl<T: Copy> MenuItemData<T> for SectionItem<T> {
    open spec fn inv(&self) -> bool {
        true
    }

    open spec fn activated(&self) -> Self {
        *self
    }

    open spec fn selection(&self) -> SelectedData<T> {
        SelectedData::Section { id: self.id_view() }
    }

    open spec fn display(&self) -> Seq<char> {
        self.label_view()
    }

    fn selected(&mut self) -> (r: SelectedData<T>) {
        SelectedData::Section { id: self.id }
    }

    fn display_string(&self) -> (r: &str) {
        self.label
    }
}

/// An entry that leads back to the enclosing level.
#[derive(Clone, Copy, PartialEq, Debug)]
pub struct BackItem<T> {
    label: &'static str,
    id: T,
}

impl<T: Copy> BackItem<T> {
    pub fn new(label: &'static str, id: T) -> (r: Self)
        ensures
            r.label_view() == label@,
            r.id_view() == id,
    {
        BackItem { label, id }
    }
}

impl<T: Copy> MenuItem<T> for BackItem<T> {
    closed spec fn label_view(&self) -> Seq<char> {
        self.label@
    }

    closed spec fn id_view(&self) -> T {
        self.id
    }

    fn label(&self) -> (r: &'static str) {
        self.label
    }

    fn id(&self) -> (r: T) {
        self.id
    }
}

impl<T: Copy> MenuItemData<T> for BackItem<T> {
    open spec fn inv(&self) -> bool {
        true
    }

    open spec fn activated(&self) -> Self {
        *self
    }

    open spec fn selection(&self) -> SelectedData<T> {
        SelectedData::Back { id: self.id_view() }
    }

    open spec fn display(&self) -> Seq<char> {
        self.label_view()
    }

    fn selected(&mut self) -> (r: SelectedData<T>) {
        SelectedData::Back { id: self.id }
    }

    fn display_string(&self) -> (r: &str) {
        self.label
    }
}

/// An entry that only reports that it was activated.
#[derive(Clone, Copy, PartialEq, Debug)]
pub struct ActionItem<T> {
    label: &'static str,
    id: T,
}

impl<T: Copy> ActionItem<T> {
    pub fn new(label: &'static str, id: T) -> (r: Self)
        ensures
            r.label_view() == label@,
            r.id_view() == id,
    {
        ActionItem { label, id }
    }
}

impl<T: Copy> MenuItem<T> for ActionItem<T> {
    closed spec fn label_view(&self) -> Seq<char> {
        self.label@
    }

    closed spec fn id_view(&self) -> T {
        self.id
    }

    fn label(&self) -> (r: &'static str) {
        self.label
    }

    fn id(&self) -> (r: T) {
        self.id
    }
}

impl<T: Copy> MenuItemData<T> for ActionItem<T> {
    open spec fn inv(&self) -> bool {
        true
    }

    open spec fn activated(&self) -> Self {
        *self
    }

    open spec fn selection(&self) -> SelectedData<T> {
        SelectedData::Action { id: self.id_view() }
    }

    open spec fn display(&self) -> Seq<char> {
        self.label_view()
    }

    fn selected(&mut self) -> (r: SelectedData<T>) {
        SelectedData::Action { id: self.id }
    }

    fn display_string(&self) -> (r: &str) {
        self.label
    }
}

/// An entry that reports a request to leave the menu.
#[derive(Clone, Copy, PartialEq, Debug)]
pub struct ExitItem<T> {
    label: &'static str,
    id: T,
}

impl<T: Copy> ExitItem<T> {
    pub fn new(label: &'static str, id: T) -> (r: Self)
        ensures
            r.label_view() == label@,
            r.id_view() == id,
    {
        ExitItem { label, id }
    }
}

impl<T: Copy> MenuItem<T> for ExitItem<T> {
    closed spec fn label_view(&self) -> Seq<char> {
        self.label@
    }

    closed spec fn id_view(&self) -> T {
        self.id
    }

    fn label(&self) -> (r: &'static str) {
        self.label
    }

    fn id(&self) -> (r: T) {
        self.id
    }
}

impl<T: Copy> MenuItemData<T> for ExitItem<T> {
    open spec fn inv(&self) -> bool {
        true
    }

    open spec fn activated(&self) -> Self {
        *self
    }

    open spec fn selection(&self) -> SelectedData<T> {
        SelectedData::Exit { id: self.id_view() }
    }

    open spec fn display(&self) -> Seq<char> {
        self.label_view()
    }

    fn selected(&mut self) -> (r: SelectedData<T>) {
        SelectedData::Exit { id: self.id }
    }

    fn display_string(&self) -> (r: &str) {
        self.label
    }
}

/// The heading of a nested level; activating it enters that level.
#[derive(Clone, Copy, PartialEq, Debug)]
pub struct SubmenuItem<T> {
    label: &'static str,
    id: T,
}

impl<T: Copy> SubmenuItem<T> {
    pub fn new(label: &'static str, id: T) -> (r: Self)
        ensures
            r.label_view() == label@,
            r.id_view() == id,
    {
        SubmenuItem { label, id }
    }
}

impl<T: Copy> MenuItem<T> for SubmenuItem<T> {
    closed spec fn label_view(&self) -> Seq<char> {
        self.label@
    }

    closed spec fn id_view(&self) -> T {
        self.id
    }

    fn label(&self) -> (r: &'static str) {
        self.label
    }

    fn id(&self) -> (r: T) {
        self.id
    }
}

impl<T: Copy> MenuItemData<T> for SubmenuItem<T> {
    open spec fn inv(&self) -> bool {
        true
    }

    open spec fn activated(&self) -> Self {
        *self
    }

    open spec fn selection(&self) -> SelectedData<T> {
        SelectedData::Submenu { id: self.id_view() }
    }

    open spec fn display(&self) -> Seq<char> {
        self.label_view()
    }

    fn selected(&mut self) -> (r: SelectedData<T>) {
        SelectedData::Submenu { id: self.id }
    }

    fn display_string(&self) -> (r: &str) {
        self.label
    }
}

/// An entry of any kind.
#[derive(PartialEq, Debug)]
pub enum MenuItems<'a, T> {
    Checkbox(CheckboxItem<T>),
    Submenu(SubmenuItem<T>),
    Selector(MultiOptionItem<'a, T>),
    Section(SectionItem<T>),
    Back(BackItem<T>),
    Action(ActionItem<T>),
    Exit(ExitItem<T>),
}

impl<'a, T: Copy> MenuItems<'a, T> {
    /// Whether the entry is a section, which the cursor passes over.
    pub fn is_section(&self) -> (r: bool)
        ensures
            r == self is Section,
    {
        match self {
            MenuItems::Section(_) => true,
            _ => false,
        }
    }
}

impl<'a, T: Copy> MenuItem<T> for MenuItems<'a, T> {
    open spec fn label_view(&self) -> Seq<char> {
        match self {
            MenuItems::Checkbox(item) => item.label_view(),
            MenuItems::Submenu(item) => item.label_view(),
            MenuItems::Selector(item) => item.label_view(),
            MenuItems::Section(item) => item.label_view(),
            MenuItems::Back(item) => item.label_view(),
            MenuItems::Action(item) => item.label_view(),
            MenuItems::Exit(item) => item.label_view(),
        }
    }

    open spec fn id_view(&self) -> T {
        match self {
            MenuItems::Checkbox(item) => item.id_view(),
            MenuItems::Submenu(item) => item.id_view(),
            MenuItems::Selector(item) => item.id_view(),
            MenuItems::Section(item) => item.id_view(),
            MenuItems::Back(item) => item.id_view(),
            MenuItems::Action(item) => item.id_view(),
            MenuItems::Exit(item) => item.id_view(),
        }
    }

    fn label(&self) -> (r: &'static str) {
        match self {
            MenuItems::Checkbox(item) => item.label(),
            MenuItems::Submenu(item) => item.label(),
            MenuItems::Selector(item) => item.label(),
            MenuItems::Section(item) => item.label(),
            MenuItems::Back(item) => item.label(),
            MenuItems::Action(item) => item.label(),
            MenuItems::Exit(item) => item.label(),
        }
    }

    fn id(&self) -> (r: T) {
        match self {
            MenuItems::Checkbox(item) => item.id(),
            MenuItems::Submenu(item) => item.id(),
            MenuItems::Selector(item) => item.id(),
            MenuItems::Section(item) => item.id(),
            MenuItems::Back(item) => item.id(),
            MenuItems::Action(item) => item.id(),
            MenuItems::Exit(item) => item.id(),
        }
    }
}

impl<'a, T: Copy> MenuItemData<T> for MenuItems<'a, T> {
    open spec fn inv(&self) -> bool {
        match self {
            MenuItems::Checkbox(item) => item.inv(),
            MenuItems::Submenu(item) => item.inv(),
            MenuItems::Selector(item) => item.inv(),
            MenuItems::Section(item) => item.inv(),
            MenuItems::Back(item) => item.inv(),
            MenuItems::Action(item) => item.inv(),
            MenuItems::Exit(item) => item.inv(),
        }
    }

    open spec fn activated(&self) -> Self {
        match self {
            MenuItems::Checkbox(item) => MenuItems::Checkbox(item.activated()),
            MenuItems::Submenu(item) => MenuItems::Submenu(item.activated()),
            MenuItems::Selector(item) => MenuItems::Selector(item.activated()),
            MenuItems::Section(item) => MenuItems::Section(item.activated()),
            MenuItems::Back(item) => MenuItems::Back(item.activated()),
            MenuItems::Action(item) => MenuItems::Action(item.activated()),
            MenuItems::Exit(item) => MenuItems::Exit(item.activated()),
        }
    }

    open spec fn selection(&self) -> SelectedData<T> {
        match self {
            MenuItems::Checkbox(item) => item.selection(),
            MenuItems::Submenu(item) => item.selection(),
            MenuItems::Selector(item) => item.selection(),
            MenuItems::Section(item) => item.selection(),
            MenuItems::Back(item) => item.selection(),
            MenuItems::Action(item) => item.selection(),
            MenuItems::Exit(item) => item.selection(),
        }
    }

    open spec fn display(&self) -> Seq<char> {
        match self {
            MenuItems::Checkbox(item) => item.display(),
            MenuItems::Submenu(item) => item.display(),
            MenuItems::Selector(item) => item.display(),
            MenuItems::Section(item) => item.display(),
            MenuItems::Back(item) => item.display(),
            MenuItems::Action(item) => item.display(),
            MenuItems::Exit(item) => item.display(),
        }
    }

    /// Activation keeps the entry's label and identifier.
    fn selected(&mut self) -> (r: SelectedData<T>)
        ensures
            final(self).label_view() == old(self).label_view(),
            final(self).id_view() == old(self).id_view(),
    {
        proof {
            if let MenuItems::Selector(item) = *old(self) {
                item.lemma_activated();
            }
        }
        match self {
            MenuItems::Checkbox(item) => item.selected(),
            MenuItems::Submenu(item) => item.selected(),
            MenuItems::Selector(item) => item.selected(),
            MenuItems::Section(item) => item.selected(),
            MenuItems::Back(item) => item.selected(),
            MenuItems::Action(item) => item.selected(),
            MenuItems::Exit(item) => item.selected(),
        }
    }

    fn display_string(&self) -> (r: &str) {
        match self {
            MenuItems::Checkbox(item) => item.display_string(),
            MenuItems::Submenu(item) => item.display_string(),
            MenuItems::Selector(item) => item.display_string(),
            MenuItems::Section(item) => item.display_string(),
            MenuItems::Back(item) => item.display_string(),
            MenuItems::Action(item) => item.display_string(),
            MenuItems::Exit(item) => item.display_string(),
        }
    }
}

} // verus!
