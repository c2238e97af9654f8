use std::collections::HashMap;
use vstd::prelude::*;

use crate::launcher::GameVer;

verus! {

broadcast use vstd::std_specs::hash::group_hash_axioms;

/// A button of the console.
#[derive(Clone, Copy, Debug, PartialEq, Eq, Structural)]
pub enum Key {
    A,
    B,
    Select,
    Start,
    DRight,
    DLeft,
    DUp,
    DDown,
    R,
    L,
    X,
    Y,
}

/// The bit that stands for `key` in the console's button mask.
pub open spec fn key_bit(key: Key) -> u32 {
    match key {
        Key::A => 0x1,
        Key::B => 0x2,
        Key::Select => 0x4,
        Key::Start => 0x8,
        Key::DRight => 0x10,
        Key::DLeft => 0x20,
        Key::DUp => 0x40,
        Key::DDown => 0x80,
        Key::R => 0x100,
        Key::L => 0x200,
        Key::X => 0x400,
        Key::Y => 0x800,
    }
}

impl Key {
    /// The bit that stands for this key in the console's button mask.
    pub fn bit(&self) -> (r: u32)
        ensures
            r == key_bit(*self),
    {
        match self {
            Key::A => 0x1,
            Key::B => 0x2,
            Key::Select => 0x4,
            Key::Start => 0x8,
            Key::DRight => 0x10,
            Key::DLeft => 0x20,
            Key::DUp => 0x40,
            Key::DDown => 0x80,
            Key::R => 0x100,
            Key::L => 0x200,
            Key::X => 0x400,
            Key::Y => 0x800,
        }
    }
}

/// A set of buttons, as the console's button mask.
#[derive(Clone, Copy, Debug, PartialEq, Eq, Structural)]
pub struct KeyPad {
    pub bits: u32,
}

impl KeyPad {
    /// Whether `key` is in the set.
    pub open spec fn has(&self, key: Key) -> bool {
        self.bits & key_bit(key) != 0
    }

    /// Whether `key` is in the set.
    pub fn contains(&self, key: Key) -> (r: bool)
        ensures
            r == self.has(key),
    {
        self.bits & key.bit() != 0
    }
}

/// Frames that a direction must be held before it starts to repeat.
pub const FIRST_PRESS_TIME: u32 = 15;

/// Frames between two repeats of a held direction.
pub const LOOP_PRESS_TIME: u32 = 4;

/// For each direction of the pad, the number of frames it has been held for
/// after the first, or `None` while it is up.
#[derive(Clone, Copy, Debug, PartialEq, Eq, Structural)]
pub struct HoldController {
    pub up: Option<u32>,
    pub down: Option<u32>,
    pub left: Option<u32>,
    pub right: Option<u32>,
}

/// A direction's count after a frame in which it was `held` or not.
pub open spec fn next_count(held: bool, count: Option<u32>) -> Option<u32> {
    if !held {
        None
    } else {
        match count {
            Some(t) => Some(if t == u32::MAX {
                0
            } else {
                (t + 1) as u32
            }),
            None => Some(0),
        }
    }
}

/// Whether a direction held for `count` frames counts as a press in this
/// frame: on the first frame, and then every few frames once it has been held
/// long enough.
pub open spec fn clicks(count: Option<u32>) -> bool {
    match count {
        Some(t) => t == 0 || (t >= FIRST_PRESS_TIME && t % LOOP_PRESS_TIME == 0),
        None => false,
    }
}

fn count_after(held: bool, count: Option<u32>) -> (r: Option<u32>)
    ensures
        r == next_count(held, count),
{
    if held {
        match count {
            Some(t) => Some(t.wrapping_add(1)),
            None => Some(0),
        }
    } else {
        None
    }
}

impl Default for HoldController {
    fn default() -> (r: HoldController)
        ensures
            r == (HoldController { up: None, down: None, left: None, right: None }),
    {
        HoldController { up: None, down: None, left: None, right: None }
    }
}

impl HoldController {
    /// Counts one more frame for each direction in `keys`, and releases the
    /// others.
    pub fn update(&mut self, keys: KeyPad)
        ensures
            final(self).up == next_count(keys.has(Key::DUp), old(self).up),
            final(self).down == next_count(keys.has(Key::DDown), old(self).down),
            final(self).left == next_count(keys.has(Key::DLeft), old(self).left),
            final(self).right == next_count(keys.has(Key::DRight), old(self).right),
    {
        self.up = count_after(keys.contains(Key::DUp), self.up);
        self.down = count_after(keys.contains(Key::DDown), self.down);
        self.left = count_after(keys.contains(Key::DLeft), self.left);
        self.right = count_after(keys.contains(Key::DRight), self.right);
    }

    /// Whether the direction `key` counts as pressed in this frame; any other
    /// key never does.
    pub fn should_click(&self, key: Key) -> (r: bool)
        ensures
            r == match key {
                Key::DUp => clicks(self.up),
                Key::DDown => clicks(self.down),
                Key::DLeft => clicks(self.left),
                Key::DRight => clicks(self.right),
                _ => false,
            },
    {
        let count = match key {
            Key::DUp => self.up,
            Key::DDown => self.down,
            Key::DLeft => self.left,
            Key::DRight => self.right,
            _ => None,
        };
        match count {
            Some(t) => t == 0 || (t >= FIRST_PRESS_TIME && t % LOOP_PRESS_TIME == 0),
            None => false,
        }
    }
}

/// A screen of the menu.
#[derive(Clone, Copy, Debug, PartialEq, Eq, Structural)]
pub enum SubMenu {
    Main,
    Run,
    Options,
    /// The mod set-up screen; the flag says whether slot names are shown.
    SetUp(bool),
    Log,
}

/// What the menu asks the program to do after a frame.
#[derive(Clone, Copy, Debug, PartialEq, Eq, Structural)]
pub enum MenuAction {
    NoOp,
    ChangeMenu(SubMenu),
    Exit,
    UpdateScreen,
    Run,
    ToggleSetting(u8),
    SaveSettings,
    ChangePage(bool),
    SaveConfig,
    ToggleMod,
    ChangeIndex(bool, bool),
}

/// The fixed options of a screen, in the order they are listed.
pub open spec fn actions_of(menu: SubMenu) -> Seq<MenuAction> {
    match menu {
        SubMenu::Main => seq![
            MenuAction::ChangeMenu(SubMenu::Run),
            MenuAction::ChangeMenu(SubMenu::SetUp(false)),
            MenuAction::ChangeMenu(SubMenu::Options),
            MenuAction::Exit,
        ],
        SubMenu::Run => seq![MenuAction::ChangeMenu(SubMenu::Main)],
        SubMenu::SetUp(_) => seq![
            MenuAction::ChangePage(false),
            MenuAction::ChangePage(true),
            MenuAction::SaveConfig,
        ],
        SubMenu::Options => seq![
            MenuAction::ToggleSetting(0),
            MenuAction::ToggleSetting(1),
            MenuAction::SaveSettings,
        ],
        SubMenu::Log => seq![MenuAction::ChangeMenu(SubMenu::Main)],
    }
}

/// The number of cursor positions on a screen: its fixed options, plus one
/// per game version on the run screen, plus one per mod on the set-up screen.
pub open spec fn option_count(menu: SubMenu, versions: nat, mods: nat) -> int {
    actions_of(menu).len() + match menu {
        SubMenu::Run => versions as int,
        SubMenu::SetUp(_) => mods as int,
        _ => 0,
    }
}

impl SubMenu {
    /// The fixed options of this screen, in the order they are listed.
    pub fn actions(&self) -> (r: Vec<MenuAction>)
        ensures
            r@ == actions_of(*self),
    {
        let mut v: Vec<MenuAction> = Vec::new();
        match self {
            SubMenu::Main => {
                v.push(MenuAction::ChangeMenu(SubMenu::Run));
                v.push(MenuAction::ChangeMenu(SubMenu::SetUp(false)));
                v.push(MenuAction::ChangeMenu(SubMenu::Options));
                v.push(MenuAction::Exit);
            },
            SubMenu::Run => {
                v.push(MenuAction::ChangeMenu(SubMenu::Main));
            },
            SubMenu::SetUp(_) => {
                v.push(MenuAction::ChangePage(false));
                v.push(MenuAction::ChangePage(true));
                v.push(MenuAction::SaveConfig);
            },
            SubMenu::Options => {
                v.push(MenuAction::ToggleSetting(0));
                v.push(MenuAction::ToggleSetting(1));
                v.push(MenuAction::SaveSettings);
            },
            SubMenu::Log => {
                v.push(MenuAction::ChangeMenu(SubMenu::Main));
            },
        }
        assert(v@ =~= actions_of(*self));
        v
    }

    /// The number of cursor positions on this screen, as a `u32` (wrapping).
    pub fn cursor_option_len(&self, versions: &Vec<GameVer>, mods: &Vec<(String, u16)>) -> (r: u32)
        ensures
            r == option_count(*self, versions.len() as nat, mods.len() as nat) as u32,
    {
        let fixed = self.actions().len();
        let extra = match self {
            SubMenu::Run => versions.len(),
            SubMenu::SetUp(_) => mods.len(),
            _ => 0,
        };
        (fixed as u128 + extra as u128) as u32
    }
}

/// The state of the menu between frames.
#[derive(Clone, Copy, Debug, PartialEq, Eq, Structural)]
pub struct MenuState {
    pub sub_menu: SubMenu,
    pub cursor: u32,
    pub action: MenuAction,
    pub hold_controller: HoldController,
}

impl Default for MenuState {
    fn default() -> (r: MenuState)
        ensures
            r == (MenuState {
                sub_menu: SubMenu::Main,
                cursor: 0,
                action: MenuAction::NoOp,
                hold_controller: HoldController { up: None, down: None, left: None, right: None },
            }),
    {
        MenuState {
            sub_menu: SubMenu::Main,
            cursor: 0,
            action: MenuAction::NoOp,
            hold_controller: HoldController { up: None, down: None, left: None, right: None },
        }
    }
}

impl MenuState {
    /// The fixed options of the current screen.
    pub fn actions(&self) -> (r: Vec<MenuAction>)
        ensures
            r@ == actions_of(self.sub_menu),
    {
        self.sub_menu.actions()
    }

    /// The number of cursor positions on the current screen, as a `u32`
    /// (wrapping).
    pub fn cursor_option_len(&self, versions: &Vec<GameVer>, mods: &Vec<(String, u16)>) -> (r: u32)
        ensures
            r == option_count(self.sub_menu, versions.len() as nat, mods.len() as nat) as u32,
    {
        self.sub_menu.cursor_option_len(versions, mods)
    }

    /// One frame of input. `down` holds the buttons pressed in this frame,
    /// `held` those held down; `mod_page` is the page of mods on show. Start
    /// asks to exit and nothing else happens. Otherwise the held directions are
    /// counted, up and down move the cursor (wrapping round the screen's
    /// options), B goes back, A picks the option under the cursor, Select opens
    /// the log, and on the set-up screen Y toggles slot names, L and R turn the
    /// page, and left and right (faster with X held) change the mod's slot.
    pub fn handle_input(
        &mut self,
        down: KeyPad,
        held: KeyPad,
        versions: &Vec<GameVer>,
        mod_page: &Vec<(String, u16)>,
    )
        requires
            option_count(old(self).sub_menu, versions.len() as nat, mod_page.len() as nat)
                <= u32::MAX,
            old(self).cursor < option_count(
                old(self).sub_menu,
                versions.len() as nat,
                mod_page.len() as nat,
            ),
        ensures
            final(self).cursor < option_count(
                final(self).sub_menu,
                versions.len() as nat,
                mod_page.len() as nat,
            ),
            ({
                let len = option_count(old(self).sub_menu, versions.len() as nat, mod_page.len() as nat);
                let hc = final(self).hold_controller;
                if down.has(Key::Start) {
                    *final(self) == MenuState { action: MenuAction::Exit, ..*old(self) }
                } else {
                    &&& hc.up == next_count(held.has(Key::DUp), old(self).hold_controller.up)
                    &&& hc.down == next_count(held.has(Key::DDown), old(self).hold_controller.down)
                    &&& hc.left == next_count(held.has(Key::DLeft), old(self).hold_controller.left)
                    &&& hc.right == next_count(held.has(Key::DRight), old(self).hold_controller.right)
                    &&& final(self).cursor == moved_cursor(old(self).cursor, len, hc)
                    &&& final(self).sub_menu == match old(self).sub_menu {
                        SubMenu::SetUp(names) => SubMenu::SetUp(names != down.has(Key::Y)),
                        other => other,
                    }
                    &&& final(self).action == chosen_action(
                        old(self).sub_menu,
                        old(self).cursor,
                        len,
                        mod_page.len() as int,
                        hc,
                        down,
                        held,
                    )
                }
            }),
    {
        let ghost len = option_count(self.sub_menu, versions.len() as nat, mod_page.len() as nat);
        self.action = MenuAction::NoOp;
        if down.contains(Key::Start) {
            self.action = MenuAction::Exit;
            return;
        }
        self.hold_controller.update(held);
        let count = self.cursor_option_len(versions, mod_page);
        if self.hold_controller.should_click(Key::DUp) {
            if self.cursor > 0 {
                self.cursor = self.cursor - 1;
            } else {
                self.cursor = count - 1;
            }
            self.action = MenuAction::UpdateScreen;
        } else if self.hold_controller.should_click(Key::DDown) {
            if self.cursor < count - 1 {
                self.cursor = self.cursor + 1;
            } else {
                self.cursor = 0;
            }
            self.action = MenuAction::UpdateScreen;
        } else if down.contains(Key::B) {
            if self.sub_menu == SubMenu::Main {
                self.action = MenuAction::Exit;
            } else {
                let actions = self.actions();
                self.action = actions[actions.len() - 1];
            }
        } else if down.contains(Key::A) {
            match self.sub_menu {
                SubMenu::Run => {
                    if self.cursor == count - 1 {
                        self.action = MenuAction::ChangeMenu(SubMenu::Main);
                    } else {
                        self.action = MenuAction::Run;
                    }
                },
                SubMenu::SetUp(_) => {
                    if count - self.cursor <= 3 {
                        let actions = self.actions();
                        self.action = actions[self.cursor as usize - mod_page.len()];
                    } else {
                        self.action = MenuAction::ToggleMod;
                    }
                },
                _ => {
                    let actions = self.actions();
                    self.action = actions[self.cursor as usize];
                },
            }
        }
        if down.contains(Key::Select) {
            self.action = MenuAction::ChangeMenu(SubMenu::Log);
        }
        if let SubMenu::SetUp(names) = self.sub_menu {
            if down.contains(Key::Y) {
                self.sub_menu = SubMenu::SetUp(!names);
                self.action = MenuAction::UpdateScreen;
            }
            if down.contains(Key::L) {
                self.action = MenuAction::ChangePage(false);
            } else if down.contains(Key::R) {
                self.action = MenuAction::ChangePage(true);
            } else if self.hold_controller.should_click(Key::DLeft) {
                self.action = MenuAction::ChangeIndex(false, held.contains(Key::X));
            } else if self.hold_controller.should_click(Key::DRight) {
                self.action = MenuAction::ChangeIndex(true, held.contains(Key::X));
            }
        }
    }
}

/// Where up and down move the cursor on a screen of `len` options, given the
/// directions' counts after this frame: up first, and round from either end.
pub open spec fn moved_cursor(cursor: u32, len: int, hc: HoldController) -> u32 {
    if clicks(hc.up) {
        if cursor > 0 {
            (cursor - 1) as u32
        } else {
            (len - 1) as u32
        }
    } else if clicks(hc.down) {
        if cursor < len - 1 {
            (cursor + 1) as u32
        } else {
            0
        }
    } else {
        cursor
    }
}

/// The action that one frame of input chooses (when Start is not pressed), on
/// screen `menu` with the cursor at `cursor` among `len` options of which
/// `mods` are mods, `hc` being the directions' counts after this frame.
pub open spec fn chosen_action(
    menu: SubMenu,
    cursor: u32,
    len: int,
    mods: int,
    hc: HoldController,
    down: KeyPad,
    held: KeyPad,
) -> MenuAction {
    let picked = if clicks(hc.up) || clicks(hc.down) {
        MenuAction::UpdateScreen
    } else if down.has(Key::B) {
        if menu == SubMenu::Main {
            MenuAction::Exit
        } else {
            actions_of(menu).last()
        }
    } else if down.has(Key::A) {
        match menu {
            SubMenu::Run => if cursor == len - 1 {
                MenuAction::ChangeMenu(SubMenu::Main)
            } else {
                MenuAction::Run
            },
            SubMenu::SetUp(_) => if len - cursor <= 3 {
                actions_of(menu)[cursor - mods]
            } else {
                MenuAction::ToggleMod
            },
            _ => actions_of(menu)[cursor as int],
        }
    } else {
        MenuAction::NoOp
    };
    let general = if down.has(Key::Select) {
        MenuAction::ChangeMenu(SubMenu::Log)
    } else {
        picked
    };
    match menu {
        SubMenu::SetUp(_) => if down.has(Key::L) {
            MenuAction::ChangePage(false)
        } else if down.has(Key::R) {
            MenuAction::ChangePage(true)
        } else if clicks(hc.left) {
            MenuAction::ChangeIndex(false, held.has(Key::X))
        } else if clicks(hc.right) {
            MenuAction::ChangeIndex(true, held.has(Key::X))
        } else if down.has(Key::Y) {
            MenuAction::UpdateScreen
        } else {
            general
        },
        _ => general,
    }
}

/// The last slot that a mod can be given when it is switched on.
pub const LAST_SLOT: u16 = 0x113;

/// The first slot from 0 to `LAST_SLOT` that no mod holds in `taken`, or
/// `u16::MAX` where all of them are held.
pub fn first_free_slot(taken: &HashMap<u16, String>) -> (r: u16)
    ensures
        r <= LAST_SLOT ==> !taken@.contains_key(r) && forall|v: u16|
            v < r ==> #[trigger] taken@.contains_key(v),
        r > LAST_SLOT ==> r == u16::MAX && forall|v: u16|
            v <= LAST_SLOT ==> #[trigger] taken@.contains_key(v),
{
    let mut val: u16 = 0;
    while val <= LAST_SLOT && taken.contains_key(&val)
        invariant
            val <= LAST_SLOT + 1,
            forall|v: u16| v < val ==> #[trigger] taken@.contains_key(v),
        decreases LAST_SLOT + 1 - val,
    {
        val = val + 1;
    }
    if val <= LAST_SLOT {
        val
    } else {
        u16::MAX
    }
}

/// The mod page shown after turning one page back or forward among
/// `num_pages`; the first and last pages stay where they are.
pub fn turned_page(page: usize, forward: bool, num_pages: usize) -> (r: usize)
    requires
        num_pages > 0,
    ensures
        r == if !forward && page > 0 {
            page - 1
        } else if forward && page < num_pages - 1 {
            page + 1
        } else {
            page as int
        },
{
    if !forward && page > 0 {
        page - 1
    } else if forward && page < num_pages - 1 {
        page + 1
    } else {
        page
    }
}

/// Where the cursor goes when the mod page changes from `old_len` mods to
/// `new_len`: on a mod, it stays on that row or the last mod's; below the mods,
/// it stays on the same fixed option.
pub fn cursor_after_page_change(cursor: u32, old_len: u32, new_len: u32) -> (r: u32)
    requires
        cursor < old_len ==> new_len > 0,
    ensures
        r == if cursor < old_len {
            if cursor <= new_len - 1 {
                cursor as int
            } else {
                new_len - 1
            }
        } else {
            (cursor - old_len + new_len) % 0x1_0000_0000
        },
{
    if cursor < old_len {
        if cursor <= new_len - 1 {
            cursor
        } else {
            new_len - 1
        }
    } else {
        (cursor - old_len).wrapping_add(new_len)
    }
}

/// The next slot to try when a mod's slot is stepped by `step`: past the top
/// it goes round to `LAST_SLOT`, past `LAST_SLOT` round to 0.
pub fn next_slot(slot: u16, step: i16) -> (r: u16)
    ensures
        ({
            let c = (slot + step) % 0x10000;
            r == if c >= 0x8000 {
                LAST_SLOT as int
            } else if c > LAST_SLOT {
                0
            } else {
                c
            }
        }),
{
    let c = slot.wrapping_add_signed(step);
    if c >= 0x8000 {
        LAST_SLOT
    } else if c > LAST_SLOT {
        0
    } else {
        c
    }
}

} // verus!
