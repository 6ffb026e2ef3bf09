//! The screens of the app and how the user moves between them.

use vstd::prelude::*;

verus! {

/// The screens of the app.
#[derive(Clone, Copy, Debug, PartialEq, Eq, Structural)]
pub enum MobileScreen {
    Dashboard,
    Editor,
    Tilesets,
    Layers,
    Objects,
    Properties,
    Settings,
    Themes,
    About,
}

/// The direction of the slide between two screens.
#[derive(Clone, Copy, Debug, PartialEq, Eq, Structural)]
pub enum TransitionDir {
    Forward,
    Back,
    Up,
    Down,
}

/// A slide from `from_screen` in direction `dir`; the caller times it.
#[derive(Clone, Copy, Debug, PartialEq, Eq, Structural)]
pub struct PageTransition {
    pub from_screen: MobileScreen,
    pub dir: TransitionDir,
}

/// The screen the app opens on, by the index the host page passes: the
/// editor and its panels, settings, themes and about have indices 1 to 8;
/// anything else opens the dashboard.
pub open spec fn screen_of_index(idx: i32) -> MobileScreen {
    if idx == 1 {
        MobileScreen::Editor
    } else if idx == 2 {
        MobileScreen::Tilesets
    } else if idx == 3 {
        MobileScreen::Layers
    } else if idx == 4 {
        MobileScreen::Objects
    } else if idx == 5 {
        MobileScreen::Properties
    } else if idx == 6 {
        MobileScreen::Settings
    } else if idx == 7 {
        MobileScreen::Themes
    } else if idx == 8 {
        MobileScreen::About
    } else {
        MobileScreen::Dashboard
    }
}

impl MobileScreen {
    /// The screen for a host-provided index.
    pub fn from_index(idx: i32) -> (s: MobileScreen)
        ensures
            s == screen_of_index(idx),
    {
        match idx {
            1 => MobileScreen::Editor,
            2 => MobileScreen::Tilesets,
            3 => MobileScreen::Layers,
            4 => MobileScreen::Objects,
            5 => MobileScreen::Properties,
            6 => MobileScreen::Settings,
            7 => MobileScreen::Themes,
            8 => MobileScreen::About,
            _ => MobileScreen::Dashboard,
        }
    }

    /// The panels that open over the editor.
    pub open spec fn spec_is_editor_subtab(self) -> bool {
        self == MobileScreen::Tilesets || self == MobileScreen::Layers || self == MobileScreen::Objects
            || self == MobileScreen::Properties
    }

    /// Whether the screen is one of the editor's panels.
    pub fn is_editor_subtab(self) -> (b: bool)
        ensures
            b == self.spec_is_editor_subtab(),
    {
        match self {
            MobileScreen::Tilesets | MobileScreen::Layers | MobileScreen::Objects | MobileScreen::Properties => true,
            _ => false,
        }
    }

    /// Whether the screen is one of the dashboard's tabs.
    pub fn is_dashboard_tab(self) -> (b: bool)
        ensures
            b == (self == MobileScreen::Dashboard || self == MobileScreen::Settings),
    {
        match self {
            MobileScreen::Dashboard | MobileScreen::Settings => true,
            _ => false,
        }
    }
}

/// The screen the app opens on when no host page chooses one.
pub fn read_initial_screen() -> (s: MobileScreen)
    ensures
        s == MobileScreen::Dashboard,
{
    MobileScreen::Dashboard
}

/// The logical parent of a screen: the editor for its panels, settings
/// for themes and about, and the dashboard for the rest.
pub open spec fn parent_screen(s: MobileScreen) -> MobileScreen {
    match s {
        MobileScreen::About | MobileScreen::Themes => MobileScreen::Settings,
        MobileScreen::Tilesets | MobileScreen::Layers | MobileScreen::Objects | MobileScreen::Properties => {
            MobileScreen::Editor
        },
        _ => MobileScreen::Dashboard,
    }
}

/// Which screen is shown, the slide into it, and the popups that a
/// forward navigation closes.
#[derive(Debug)]
pub struct Navigation {
    pub screen: MobileScreen,
    pub transition: Option<PageTransition>,
    pub show_language_popup: bool,
    pub show_workspace_picker: bool,
    pub show_import_menu: bool,
}

impl Navigation {
    /// Navigation on `screen`, with nothing sliding and no popup open.
    pub fn new(screen: MobileScreen) -> (n: Navigation)
        ensures
            n.screen == screen,
            n.transition is None,
            !n.show_language_popup,
            !n.show_workspace_picker,
            !n.show_import_menu,
    {
        Navigation {
            screen,
            transition: None,
            show_language_popup: false,
            show_workspace_picker: false,
            show_import_menu: false,
        }
    }

    /// Slides to `screen` in direction `dir`; nothing happens when it is
    /// already shown.
    fn slide_to(&mut self, screen: MobileScreen, dir: TransitionDir)
        ensures
            screen == old(self).screen ==> *final(self) == *old(self),
            screen != old(self).screen ==> final(self).screen == screen && final(self).transition == Some(
                PageTransition { from_screen: old(self).screen, dir },
            ) && final(self).show_language_popup == old(self).show_language_popup
                && final(self).show_workspace_picker == old(self).show_workspace_picker
                && final(self).show_import_menu == old(self).show_import_menu,
    {
        if screen == self.screen {
            return;
        }
        self.transition = Some(PageTransition { from_screen: self.screen, dir });
        self.screen = screen;
    }

    /// Goes forward to `screen`, closing any popup.
    pub fn navigate(&mut self, screen: MobileScreen)
        ensures
            screen == old(self).screen ==> *final(self) == *old(self),
            screen != old(self).screen ==> final(self).screen == screen && final(self).transition == Some(
                PageTransition { from_screen: old(self).screen, dir: TransitionDir::Forward },
            ) && !final(self).show_language_popup && !final(self).show_workspace_picker
                && !final(self).show_import_menu,
    {
        if screen == self.screen {
            return;
        }
        self.show_language_popup = false;
        self.show_workspace_picker = false;
        self.show_import_menu = false;
        self.slide_to(screen, TransitionDir::Forward);
    }

    /// Goes back to `screen`.
    pub fn navigate_back_to(&mut self, screen: MobileScreen)
        ensures
            screen == old(self).screen ==> *final(self) == *old(self),
            screen != old(self).screen ==> *final(self) == (Navigation {
                screen,
                transition: Some(PageTransition { from_screen: old(self).screen, dir: TransitionDir::Back }),
                ..*old(self)
            }),
    {
        self.slide_to(screen, TransitionDir::Back);
    }

    /// Slides `screen` up over the current one.
    pub fn navigate_up(&mut self, screen: MobileScreen)
        ensures
            screen == old(self).screen ==> *final(self) == *old(self),
            screen != old(self).screen ==> *final(self) == (Navigation {
                screen,
                transition: Some(PageTransition { from_screen: old(self).screen, dir: TransitionDir::Up }),
                ..*old(self)
            }),
    {
        self.slide_to(screen, TransitionDir::Up);
    }

    /// Slides the current screen down to reveal `screen`.
    pub fn navigate_down(&mut self, screen: MobileScreen)
        ensures
            screen == old(self).screen ==> *final(self) == *old(self),
            screen != old(self).screen ==> *final(self) == (Navigation {
                screen,
                transition: Some(PageTransition { from_screen: old(self).screen, dir: TransitionDir::Down }),
                ..*old(self)
            }),
    {
        self.slide_to(screen, TransitionDir::Down);
    }

    /// Switches tab at once, without a slide.
    pub fn navigate_tab(&mut self, screen: MobileScreen)
        ensures
            *final(self) == (Navigation { screen, transition: None, ..*old(self) }),
    {
        self.transition = None;
        self.screen = screen;
    }

    /// Goes to the logical parent screen: editor panels slide down, other
    /// screens slide back; on the dashboard nothing happens.
    pub fn navigate_back(&mut self)
        ensures
            parent_screen(old(self).screen) == old(self).screen ==> *final(self) == *old(self),
            parent_screen(old(self).screen) != old(self).screen ==> *final(self) == (Navigation {
                screen: parent_screen(old(self).screen),
                transition: Some(
                    PageTransition {
                        from_screen: old(self).screen,
                        dir: if old(self).screen.spec_is_editor_subtab() {
                            TransitionDir::Down
                        } else {
                            TransitionDir::Back
                        },
                    },
                ),
                ..*old(self)
            }),
    {
        let target = match self.screen {
            MobileScreen::About | MobileScreen::Themes => MobileScreen::Settings,
            MobileScreen::Tilesets | MobileScreen::Layers | MobileScreen::Objects | MobileScreen::Properties => {
                MobileScreen::Editor
            },
            _ => MobileScreen::Dashboard,
        };
        if target == self.screen {
            return;
        }
        let dir = if self.screen.is_editor_subtab() {
            TransitionDir::Down
        } else {
            TransitionDir::Back
        };
        self.slide_to(target, dir);
    }
}

/// Going back twice from any screen reaches the dashboard, and going back
/// from the dashboard stays there.
pub proof fn lemma_back_twice_reaches_dashboard(s: MobileScreen)
    ensures
        parent_screen(parent_screen(s)) == MobileScreen::Dashboard,
        parent_screen(MobileScreen::Dashboard) == MobileScreen::Dashboard,
{
}

/// Going back never lands on an editor panel.
pub proof fn lemma_back_leaves_panels(s: MobileScreen)
    ensures
        !parent_screen(s).spec_is_editor_subtab(),
{
}

} // verus!
