//! Menus that appear at the top of windows, and the items that go in them.
use vstd::prelude::*;
use vstd::string::StringSliceAdditionalSpecFns;

verus! {

/// One entry of a menu, in the order in which it was appended.
#[derive(Clone, Copy, Debug, PartialEq, Eq, Structural)]
pub enum MenuEntry {
    /// The item with this index in the arena.
    Item(usize),
    /// A separator line.
    Separator,
}

/// What a menu is: its name and its entries, in order.
pub struct MenuView {
    pub name: Seq<char>,
    pub entries: Seq<MenuEntry>,
}

/// What a menu item is.
pub struct ItemView {
    pub name: Seq<char>,
    /// The index of the menu that holds the item.
    pub menu: nat,
    /// Whether the item is a checkbox item.
    pub checkable: bool,
    pub enabled: bool,
    pub checked: bool,
    /// The key of the handler to run when the item is clicked, if one was registered.
    pub on_clicked: Option<u64>,
}

/// The whole menu bar: every menu and every item, each at the index of its handle.
pub struct UIView {
    pub menus: Seq<MenuView>,
    pub items: Seq<ItemView>,
}

/// A name of a menu or an item is valid when it holds no NUL byte.
pub open spec fn valid_name(s: &str) -> bool {
    forall|i: int| 0 <= i < s.spec_bytes().len() ==> s.spec_bytes()[i] != 0u8
}

impl UIView {
    /// Items point at existing menus, menus list only existing items that they hold, and only
    /// checkbox items can be checked.
    pub open spec fn wf(self) -> bool {
        &&& forall|i: int|
            0 <= i < self.items.len() ==> {
                &&& #[trigger] self.items[i].menu < self.menus.len()
                &&& !self.items[i].checkable ==> !self.items[i].checked
            }
        &&& forall|m: int, k: int|
            0 <= m < self.menus.len() && 0 <= k < self.menus[m].entries.len()
                && #[trigger] self.menus[m].entries[k] is Item ==> {
                &&& (self.menus[m].entries[k]->Item_0 as int) < self.items.len()
                &&& self.items[self.menus[m].entries[k]->Item_0 as int].menu == m
            }
    }

    /// The menu bar with a new, empty menu at its end.
    pub open spec fn add_menu(self, name: Seq<char>) -> UIView {
        UIView { menus: self.menus.push(MenuView { name, entries: seq![] }), ..self }
    }

    /// The menu bar with a new item, enabled and unchecked, at the end of menu `m`.
    pub open spec fn add_item(self, m: nat, name: Seq<char>, checkable: bool) -> UIView {
        let i = self.items.len();
        let item = ItemView {
            name,
            menu: m,
            checkable,
            enabled: true,
            checked: false,
            on_clicked: None,
        };
        let menu = self.menus[m as int];
        UIView {
            menus: self.menus.update(
                m as int,
                MenuView { entries: menu.entries.push(MenuEntry::Item(i as usize)), ..menu },
            ),
            items: self.items.push(item),
        }
    }

    /// The menu bar with a separator at the end of menu `m`.
    pub open spec fn add_separator(self, m: nat) -> UIView {
        let menu = self.menus[m as int];
        UIView {
            menus: self.menus.update(
                m as int,
                MenuView { entries: menu.entries.push(MenuEntry::Separator), ..menu },
            ),
            ..self
        }
    }

    /// The menu bar with item `i` replaced.
    pub open spec fn with_item(self, i: nat, item: ItemView) -> UIView {
        UIView { items: self.items.update(i as int, item), ..self }
    }

    /// The menu bar with item `i` enabled or disabled.
    pub open spec fn set_enabled(self, i: nat, enabled: bool) -> UIView {
        self.with_item(i, ItemView { enabled, ..self.items[i as int] })
    }

    /// The menu bar with item `i` checked or unchecked; an item that is not a checkbox item
    /// stays as it is.
    pub open spec fn set_checked(self, i: nat, checked: bool) -> UIView {
        if self.items[i as int].checkable {
            self.with_item(i, ItemView { checked, ..self.items[i as int] })
        } else {
            self
        }
    }

    /// The menu bar with `handler` as the click handler of item `i`.
    pub open spec fn set_on_clicked(self, i: nat, handler: u64) -> UIView {
        self.with_item(i, ItemView { on_clicked: Some(handler), ..self.items[i as int] })
    }

    /// What a click on item `i` does: nothing on a disabled item; on an enabled one, a checkbox
    /// item toggles, and the item's handler, if any, is the one to run.
    pub open spec fn click(self, i: nat) -> (UIView, Option<u64>) {
        let item = self.items[i as int];
        if !item.enabled {
            (self, None)
        } else if item.checkable {
            (self.with_item(i, ItemView { checked: !item.checked, ..item }), item.on_clicked)
        } else {
            (self, item.on_clicked)
        }
    }
}

/// A checkbox item starts unchecked, and whatever `set_checked` gives it is what `checked`
/// then reads.
pub proof fn lemma_check_item_round_trip(v: UIView, m: nat, name: Seq<char>, checked: bool)
    requires
        v.wf(),
        m < v.menus.len(),
    ensures
        ({
            let w = v.add_item(m, name, true);
            let i = v.items.len();
            &&& w.items[i as int].checkable
            &&& !w.items[i as int].checked
            &&& w.set_checked(i, checked).items[i as int].checked == checked
        }),
{
}

/// Returns whether `name` holds no NUL byte, and so can name a menu or an item.
pub fn is_valid_name(name: &str) -> (r: bool)
    ensures
        r == valid_name(name),
{
    let bytes = name.as_bytes();
    let mut i: usize = 0;
    while i < bytes.len()
        invariant
            bytes@ == name.spec_bytes(),
            i <= bytes@.len(),
            forall|j: int| 0 <= j < i ==> bytes@[j] != 0u8,
        decreases bytes@.len() - i,
    {
        if bytes[i] == 0u8 {
            return false;
        }
        i = i + 1;
    }
    true
}

struct MenuRecord {
    name: String,
    entries: Vec<MenuEntry>,
}

impl MenuRecord {
    closed spec fn view(&self) -> MenuView {
        MenuView { name: self.name@, entries: self.entries@ }
    }
}

struct ItemRecord {
    name: String,
    menu: usize,
    checkable: bool,
    enabled: bool,
    checked: bool,
    on_clicked: Option<u64>,
}

impl ItemRecord {
    closed spec fn view(&self) -> ItemView {
        ItemView {
            name: self.name@,
            menu: self.menu as nat,
            checkable: self.checkable,
            enabled: self.enabled,
            checked: self.checked,
            on_clicked: self.on_clicked,
        }
    }
}

/// The application's menu bar. It owns every menu and item; `Menu` and `MenuItem` are indices
/// into it. As the bar is unique per application, a menu created in it shows on every window
/// that displays menus.
pub struct UI {
    menus: Vec<MenuRecord>,
    items: Vec<ItemRecord>,
}

impl View for UI {
    type V = UIView;

    closed spec fn view(&self) -> UIView {
        UIView {
            menus: self.menus@.map_values(|m: MenuRecord| m.view()),
            items: self.items@.map_values(|i: ItemRecord| i.view()),
        }
    }
}

impl UI {
    pub open spec fn wf(&self) -> bool {
        self@.wf()
    }

    /// An empty menu bar.
    pub fn new() -> (r: UI)
        ensures
            r.wf(),
            r@.menus == Seq::<MenuView>::empty(),
            r@.items == Seq::<ItemView>::empty(),
    {
        let r = UI { menus: Vec::new(), items: Vec::new() };
        assert(r@.menus =~= Seq::<MenuView>::empty());
        assert(r@.items =~= Seq::<ItemView>::empty());
        r
    }

    /// Handles a click on `item`: a disabled item ignores it; on an enabled checkbox item the
    /// checked state toggles. Returns the key of the handler to run, if the click reaches one.
    pub fn click(&mut self, item: &MenuItem) -> (r: Option<u64>)
        requires
            old(self).wf(),
            item.id() < old(self)@.items.len(),
        ensures
            final(self).wf(),
            (final(self)@, r) == old(self)@.click(item.id()),
    {
        let i = item.ui_menu_item;
        if !self.items[i].enabled {
            return None;
        }
        if self.items[i].checkable {
            self.items[i].checked = !self.items[i].checked;
            proof {
                let o = old(self)@.click(i as nat).0;
                assert(self@.items =~= o.items);
                assert(self@.menus =~= o.menus);
            }
        }
        self.items[i].on_clicked
    }

    /// Returns whether `menu` is a menu of this bar.
    pub fn has_menu(&self, menu: &Menu) -> (r: bool)
        ensures
            r == (menu.id() < self@.menus.len()),
    {
        menu.ui_menu < self.menus.len()
    }

    /// Returns whether `item` is an item of this bar.
    pub fn has_item(&self, item: &MenuItem) -> (r: bool)
        ensures
            r == (item.id() < self@.items.len()),
    {
        item.ui_menu_item < self.items.len()
    }

    /// Handles to every menu of the bar, in the order of their creation.
    pub fn menus(&self) -> (r: Vec<Menu>)
        ensures
            r@.len() == self@.menus.len(),
            forall|k: int| 0 <= k < r@.len() ==> #[trigger] r@[k].id() == k,
    {
        let mut r: Vec<Menu> = Vec::new();
        let mut k: usize = 0;
        while k < self.menus.len()
            invariant
                k <= self.menus@.len(),
                r@.len() == k,
                forall|j: int| 0 <= j < k ==> #[trigger] r@[j].id() == j,
            decreases self.menus@.len() - k,
        {
            r.push(Menu { ui_menu: k });
            k = k + 1;
        }
        r
    }

    fn set_item_enabled(&mut self, i: usize, enabled: bool)
        requires
            old(self).wf(),
            i < old(self)@.items.len(),
        ensures
            final(self).wf(),
            final(self)@ == old(self)@.set_enabled(i as nat, enabled),
    {
        self.items[i].enabled = enabled;
        proof {
            let o = old(self)@.set_enabled(i as nat, enabled);
            assert(self@.items =~= o.items);
            assert(self@.menus =~= o.menus);
        }
    }

    fn append_entry(&mut self, m: usize, name: &str, checkable: bool) -> (r: usize)
        requires
            old(self).wf(),
            m < old(self)@.menus.len(),
        ensures
            final(self).wf(),
            r == old(self)@.items.len(),
            final(self)@ == old(self)@.add_item(m as nat, name@, checkable),
    {
        let i = self.items.len();
        self.items.push(
            ItemRecord {
                name: name.to_owned(),
                menu: m,
                checkable,
                enabled: true,
                checked: false,
                on_clicked: None,
            },
        );
        self.menus[m].entries.push(MenuEntry::Item(i));
        proof {
            let o = old(self)@.add_item(m as nat, name@, checkable);
            assert(self@.items =~= o.items);
            assert(self@.menus[m as int].entries =~= o.menus[m as int].entries);
            assert(self@.menus =~= o.menus);
            let v = self@;
            let w = old(self)@;
            assert forall|mm: int, k: int|
                0 <= mm < v.menus.len() && 0 <= k < v.menus[mm].entries.len()
                    && #[trigger] v.menus[mm].entries[k] is Item implies {
                &&& (v.menus[mm].entries[k]->Item_0 as int) < v.items.len()
                &&& v.items[v.menus[mm].entries[k]->Item_0 as int].menu == mm
            } by {
                if mm != m || k < w.menus[mm].entries.len() {
                    assert(v.menus[mm].entries[k] == w.menus[mm].entries[k]);
                }
            }
        }
        i
    }
}

/// A `Menu` represents one of the top-level menus at the top of a window. As that bar is unique
/// per application, creating a new `Menu` shows it on all windows that support displaying menus.
#[derive(Clone, Copy)]
pub struct Menu {
    ui_menu: usize,
}

impl Menu {
    /// The index of the menu in the arena.
    pub closed spec fn id(&self) -> nat {
        self.ui_menu as nat
    }

    /// Creates a new menu with the given name to be displayed in the menubar at the top of the window.
    pub fn new(ctx: &mut UI, name: &str) -> (r: Menu)
        requires
            old(ctx).wf(),
            valid_name(name),
        ensures
            final(ctx).wf(),
            r.id() == old(ctx)@.menus.len(),
            final(ctx)@ == old(ctx)@.add_menu(name@),
    {
        let id = ctx.menus.len();
        ctx.menus.push(MenuRecord { name: name.to_owned(), entries: Vec::new() });
        proof {
            let v = ctx@;
            let o = old(ctx)@.add_menu(name@);
            assert(v.menus =~= o.menus);
            assert(v.items =~= o.items);
        }
        Menu { ui_menu: id }
    }

    /// The name that the menu was created with.
    pub fn name<'a>(&self, ctx: &'a UI) -> (r: &'a str)
        requires
            self.id() < ctx@.menus.len(),
        ensures
            r@ == ctx@.menus[self.id() as int].name,
    {
        ctx.menus[self.ui_menu].name.as_str()
    }

    /// The menu's items and separators, in the order in which they were appended.
    pub fn entries<'a>(&self, ctx: &'a UI) -> (r: &'a Vec<MenuEntry>)
        requires
            self.id() < ctx@.menus.len(),
        ensures
            r@ == ctx@.menus[self.id() as int].entries,
    {
        &ctx.menus[self.ui_menu].entries
    }

    /// Adds a new item with the given name to the menu.
    pub fn append_item(&self, ctx: &mut UI, name: &str) -> (r: MenuItem)
        requires
            old(ctx).wf(),
            self.id() < old(ctx)@.menus.len(),
            valid_name(name),
        ensures
            final(ctx).wf(),
            r.id() == old(ctx)@.items.len(),
            final(ctx)@ == old(ctx)@.add_item(self.id(), name@, false),
    {
        MenuItem { ui_menu_item: ctx.append_entry(self.ui_menu, name, false) }
    }

    /// Adds a new togglable (checkbox) item with the given name to the menu.
    pub fn append_check_item(&self, ctx: &mut UI, name: &str) -> (r: MenuItem)
        requires
            old(ctx).wf(),
            self.id() < old(ctx)@.menus.len(),
            valid_name(name),
        ensures
            final(ctx).wf(),
            r.id() == old(ctx)@.items.len(),
            final(ctx)@ == old(ctx)@.add_item(self.id(), name@, true),
    {
        MenuItem { ui_menu_item: ctx.append_entry(self.ui_menu, name, true) }
    }

    /// Adds a separator to the menu.
    pub fn append_separator(&self, ctx: &mut UI)
        requires
            old(ctx).wf(),
            self.id() < old(ctx)@.menus.len(),
        ensures
            final(ctx).wf(),
            final(ctx)@ == old(ctx)@.add_separator(self.id()),
    {
        let m = self.ui_menu;
        ctx.menus[m].entries.push(MenuEntry::Separator);
        proof {
            let o = old(ctx)@.add_separator(self.id());
            assert(ctx@.menus[m as int].entries =~= o.menus[m as int].entries);
            assert(ctx@.menus =~= o.menus);
            assert(ctx@.items =~= o.items);
            let v = ctx@;
            let w = old(ctx)@;
            assert forall|mm: int, k: int|
                0 <= mm < v.menus.len() && 0 <= k < v.menus[mm].entries.len()
                    && #[trigger] v.menus[mm].entries[k] is Item implies {
                &&& (v.menus[mm].entries[k]->Item_0 as int) < v.items.len()
                &&& v.items[v.menus[mm].entries[k]->Item_0 as int].menu == mm
            } by {
                if mm != m || k < w.menus[mm].entries.len() {
                    assert(v.menus[mm].entries[k] == w.menus[mm].entries[k]);
                }
            }
        }
    }
}

/// A `MenuItem` represents an item that is shown in a `Menu`. Note that, unlike many controls,
/// the text on `MenuItem`s cannot be changed after creation.
#[derive(Clone, Copy)]
pub struct MenuItem {
    ui_menu_item: usize,
}

impl MenuItem {
    /// The index of the item in the arena.
    pub closed spec fn id(&self) -> nat {
        self.ui_menu_item as nat
    }

    /// Enables the item, allowing it to be selected. This is the default state of a menu item.
    pub fn enable(&self, ctx: &mut UI)
        requires
            old(ctx).wf(),
            self.id() < old(ctx)@.items.len(),
        ensures
            final(ctx).wf(),
            final(ctx)@ == old(ctx)@.set_enabled(self.id(), true),
    {
        ctx.set_item_enabled(self.ui_menu_item, true);
    }

    /// Disables the item, preventing it from being selected and providing a visual cue to the
    /// user that it cannot be selected.
    pub fn disable(&self, ctx: &mut UI)
        requires
            old(ctx).wf(),
            self.id() < old(ctx)@.items.len(),
        ensures
            final(ctx).wf(),
            final(ctx)@ == old(ctx)@.set_enabled(self.id(), false),
    {
        ctx.set_item_enabled(self.ui_menu_item, false);
    }

    /// Returns `true` if the menu item is checked, and false if it is not checked (or not checkable).
    pub fn checked(&self, ctx: &UI) -> (r: bool)
        requires
            ctx.wf(),
            self.id() < ctx@.items.len(),
        ensures
            r == ctx@.items[self.id() as int].checked,
            !ctx@.items[self.id() as int].checkable ==> !r,
    {
        proof {
            assert(ctx@.items[self.id() as int].menu < ctx@.menus.len());
        }
        ctx.items[self.ui_menu_item].checked
    }

    /// Sets the menu item to either checked or unchecked based on the given value.
    ///
    /// Setting the checked value of a non-checkable menu item has no effect.
    pub fn set_checked(&self, ctx: &mut UI, checked: bool)
        requires
            old(ctx).wf(),
            self.id() < old(ctx)@.items.len(),
        ensures
            final(ctx).wf(),
            final(ctx)@ == old(ctx)@.set_checked(self.id(), checked),
    {
        let i = self.ui_menu_item;
        if ctx.items[i].checkable {
            ctx.items[i].checked = checked;
            proof {
                let o = old(ctx)@.set_checked(self.id(), checked);
                assert(ctx@.items =~= o.items);
                assert(ctx@.menus =~= o.menus);
            }
        }
    }

    /// Sets the handler to be run when the item is clicked/selected: `handler` is the key under
    /// which the caller keeps it. A later call replaces the earlier handler.
    pub fn on_clicked(&self, ctx: &mut UI, handler: u64)
        requires
            old(ctx).wf(),
            self.id() < old(ctx)@.items.len(),
        ensures
            final(ctx).wf(),
            final(ctx)@ == old(ctx)@.set_on_clicked(self.id(), handler),
    {
        let i = self.ui_menu_item;
        ctx.items[i].on_clicked = Some(handler);
        proof {
            let o = old(ctx)@.set_on_clicked(self.id(), handler);
            assert(ctx@.items =~= o.items);
            assert(ctx@.menus =~= o.menus);
        }
    }

    /// The name that the item was created with.
    pub fn name<'a>(&self, ctx: &'a UI) -> (r: &'a str)
        requires
            self.id() < ctx@.items.len(),
        ensures
            r@ == ctx@.items[self.id() as int].name,
    {
        ctx.items[self.ui_menu_item].name.as_str()
    }

    /// Returns `true` if the item can be selected.
    pub fn enabled(&self, ctx: &UI) -> (r: bool)
        requires
            self.id() < ctx@.items.len(),
        ensures
            r == ctx@.items[self.id() as int].enabled,
    {
        ctx.items[self.ui_menu_item].enabled
    }

    /// Returns `true` if the item is a checkbox item.
    pub fn checkable(&self, ctx: &UI) -> (r: bool)
        requires
            self.id() < ctx@.items.len(),
        ensures
            r == ctx@.items[self.id() as int].checkable,
    {
        ctx.items[self.ui_menu_item].checkable
    }

    /// Creates a `MenuItem` from an index into the arena.
    pub fn from_raw(raw: usize) -> (r: Self)
        ensures
            r.id() == raw,
    {
        MenuItem { ui_menu_item: raw }
    }
}

} // verus!
