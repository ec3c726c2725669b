//! The immutable theme registry: a fixed, ordered list of named color
//! palettes built once per process. The first palette is the default and
//! has no background of its own; every other palette names an explicit
//! background. Colors are the library's own plain values; the binary maps
//! them to whatever the terminal layer expects.

use vstd::prelude::*;

use crate::naming::str_eq;

verus! {

/// One terminal color, as a plain value.
#[derive(Clone, Copy, PartialEq, Eq, Structural, Debug)]
pub enum Color {
    Reset,
    Black,
    Red,
    Green,
    Yellow,
    Blue,
    Magenta,
    Cyan,
    Gray,
    DarkGray,
    LightRed,
    LightGreen,
    LightYellow,
    LightBlue,
    LightMagenta,
    LightCyan,
    White,
    Rgb(u8, u8, u8),
    Indexed(u8),
}

/// A named color palette. `background` is `None` only for the default
/// palette, which renders on the terminal's own background.
pub struct Theme {
    pub name: String,
    pub background: Option<Color>,
    pub title_try: Color,
    pub title_rs: Color,
    pub search_title: Color,
    pub search_border: Color,
    pub folder_title: Color,
    pub folder_border: Color,
    pub disk_title: Color,
    pub disk_border: Color,
    pub preview_title: Color,
    pub preview_border: Color,
    pub legends_title: Color,
    pub legends_border: Color,
    pub list_date: Color,
    pub list_highlight_bg: Color,
    pub list_highlight_fg: Color,
    pub helpers_colors: Color,
    pub status_message: Color,
    pub popup_bg: Color,
    pub popup_text: Color,
    pub icon_rust: Color,
    pub icon_maven: Color,
    pub icon_flutter: Color,
    pub icon_go: Color,
    pub icon_python: Color,
    pub icon_mise: Color,
    pub icon_worktree: Color,
    pub icon_worktree_lock: Color,
    pub icon_gitmodules: Color,
    pub icon_git: Color,
    pub icon_folder: Color,
    pub icon_file: Color,
}

impl Clone for Theme {
    fn clone(&self) -> (res: Self)
        ensures
            res == *self,
    {
        Theme {
            name: self.name.clone(),
            background: self.background,
            title_try: self.title_try,
            title_rs: self.title_rs,
            search_title: self.search_title,
            search_border: self.search_border,
            folder_title: self.folder_title,
            folder_border: self.folder_border,
            disk_title: self.disk_title,
            disk_border: self.disk_border,
            preview_title: self.preview_title,
            preview_border: self.preview_border,
            legends_title: self.legends_title,
            legends_border: self.legends_border,
            list_date: self.list_date,
            list_highlight_bg: self.list_highlight_bg,
            list_highlight_fg: self.list_highlight_fg,
            helpers_colors: self.helpers_colors,
            status_message: self.status_message,
            popup_bg: self.popup_bg,
            popup_text: self.popup_text,
            icon_rust: self.icon_rust,
            icon_maven: self.icon_maven,
            icon_flutter: self.icon_flutter,
            icon_go: self.icon_go,
            icon_python: self.icon_python,
            icon_mise: self.icon_mise,
            icon_worktree: self.icon_worktree,
            icon_worktree_lock: self.icon_worktree_lock,
            icon_gitmodules: self.icon_gitmodules,
            icon_git: self.icon_git,
            icon_folder: self.icon_folder,
            icon_file: self.icon_file,
        }
    }
}

impl Default for Theme {
    fn default() -> (res: Self)
        ensures
            res.name@ == "Default"@,
            res.background is None,
    {
        Theme::default_theme()
    }
}

impl Theme {
    /// The palette named "Default".
    pub fn default_theme() -> (r: Self)
        ensures
            r.name@ == "Default"@,
            r.background is None,
    {
        Theme {
            name: String::from_str("Default"),
            background: None,
            title_try: Color::Rgb(137, 180, 250),  // Blue
            title_rs: Color::Rgb(243, 139, 168),  // Red
            search_title: Color::Rgb(250, 179, 135),  // Peach
            search_border: Color::Rgb(147, 153, 178),  // Overlay
            folder_title: Color::Rgb(166, 227, 161),  // Green
            folder_border: Color::Rgb(147, 153, 178),  // Overlay
            disk_title: Color::Rgb(249, 226, 175),  // Yellow
            disk_border: Color::Rgb(147, 153, 178),  // Overlay
            preview_title: Color::Rgb(137, 180, 250),  // Blue
            preview_border: Color::Rgb(147, 153, 178),  // Overlay
            legends_title: Color::Rgb(203, 166, 247),  // Mauve
            legends_border: Color::Rgb(147, 153, 178),  // Overlay
            list_date: Color::Rgb(166, 173, 200),  // Subtext
            list_highlight_bg: Color::Rgb(88, 91, 112),  // Surface
            list_highlight_fg: Color::Rgb(205, 214, 244),  // Text
            helpers_colors: Color::Rgb(147, 153, 178),  // Overlay
            status_message: Color::Rgb(249, 226, 175),  // Yellow
            popup_bg: Color::Rgb(30, 30, 46),  // Base
            popup_text: Color::Rgb(243, 139, 168),  // Red
            icon_rust: Color::Rgb(230, 100, 50),  // Rust orange
            icon_maven: Color::Rgb(255, 150, 50),  // Maven orange
            icon_flutter: Color::Rgb(2, 123, 222),  // Flutter blue
            icon_go: Color::Rgb(0, 173, 216),  // Go cyan
            icon_python: Color::Yellow,  // Python yellow
            icon_mise: Color::Rgb(250, 179, 135),  // Mise peach
            icon_worktree: Color::Rgb(100, 180, 100),  // Worktree green
            icon_worktree_lock: Color::White,  // Lock white
            icon_gitmodules: Color::Rgb(180, 130, 200),  // Submodules purple
            icon_git: Color::Rgb(240, 80, 50),  // Git red-orange
            icon_folder: Color::Rgb(249, 226, 175),  // Folder yellow
            icon_file: Color::Rgb(166, 173, 200),  // File grey
        }
    }

    /// The palette named "Catppuccin Mocha".
    pub fn catppuccin_mocha() -> (r: Self)
        ensures
            r.name@ == "Catppuccin Mocha"@,
            r.background == Some(Color::Rgb(30, 30, 46)),
    {
        Theme {
            name: String::from_str("Catppuccin Mocha"),
            background: Some(Color::Rgb(30, 30, 46)),
            title_try: Color::Rgb(137, 180, 250),  // Blue
            title_rs: Color::Rgb(243, 139, 168),  // Red
            search_title: Color::Rgb(250, 179, 135),  // Peach
            search_border: Color::Rgb(147, 153, 178),  // Overlay2
            folder_title: Color::Rgb(166, 227, 161),  // Green
            folder_border: Color::Rgb(147, 153, 178),  // Overlay2
            disk_title: Color::Rgb(249, 226, 175),  // Yellow
            disk_border: Color::Rgb(147, 153, 178),  // Overlay2
            preview_title: Color::Rgb(137, 180, 250),  // Blue
            preview_border: Color::Rgb(147, 153, 178),  // Overlay2
            legends_title: Color::Rgb(203, 166, 247),  // Mauve
            legends_border: Color::Rgb(147, 153, 178),  // Overlay2
            list_date: Color::Rgb(166, 173, 200),  // Subtext0
            list_highlight_bg: Color::Rgb(88, 91, 112),  // Surface2
            list_highlight_fg: Color::Rgb(205, 214, 244),  // Text
            helpers_colors: Color::Rgb(147, 153, 178),  // Overlay2
            status_message: Color::Rgb(249, 226, 175),  // Yellow
            popup_bg: Color::Rgb(30, 30, 46),  // Base
            popup_text: Color::Rgb(243, 139, 168),  // Red
            icon_rust: Color::Rgb(250, 179, 135),  // Peach
            icon_maven: Color::Rgb(243, 139, 168),  // Red
            icon_flutter: Color::Rgb(137, 180, 250),  // Blue
            icon_go: Color::Rgb(148, 226, 213),  // Teal
            icon_python: Color::Rgb(249, 226, 175),  // Yellow
            icon_mise: Color::Rgb(250, 179, 135),  // Peach
            icon_worktree: Color::Rgb(166, 227, 161),  // Green
            icon_worktree_lock: Color::Rgb(166, 173, 200),  // Subtext0
            icon_gitmodules: Color::Rgb(203, 166, 247),  // Mauve
            icon_git: Color::Rgb(243, 139, 168),  // Red
            icon_folder: Color::Rgb(249, 226, 175),  // Yellow
            icon_file: Color::Rgb(166, 173, 200),  // Subtext0
        }
    }

    /// The palette named "Dracula".
    pub fn dracula() -> (r: Self)
        ensures
            r.name@ == "Dracula"@,
            r.background == Some(Color::Rgb(40, 42, 54)),
    {
        Theme {
            name: String::from_str("Dracula"),
            background: Some(Color::Rgb(40, 42, 54)),
            title_try: Color::Rgb(189, 147, 249),  // Purple
            title_rs: Color::Rgb(255, 121, 198),  // Pink
            search_title: Color::Rgb(255, 184, 108),  // Orange
            search_border: Color::Rgb(98, 114, 164),  // Comment
            folder_title: Color::Rgb(80, 250, 123),  // Green
            folder_border: Color::Rgb(98, 114, 164),  // Comment
            disk_title: Color::Rgb(241, 250, 140),  // Yellow
            disk_border: Color::Rgb(98, 114, 164),  // Comment
            preview_title: Color::Rgb(139, 233, 253),  // Cyan
            preview_border: Color::Rgb(98, 114, 164),  // Comment
            legends_title: Color::Rgb(189, 147, 249),  // Purple
            legends_border: Color::Rgb(98, 114, 164),  // Comment
            list_date: Color::Rgb(139, 233, 253),  // Cyan
            list_highlight_bg: Color::Rgb(68, 71, 90),  // Selection
            list_highlight_fg: Color::Rgb(248, 248, 242),  // Foreground
            helpers_colors: Color::Rgb(98, 114, 164),  // Comment
            status_message: Color::Rgb(241, 250, 140),  // Yellow
            popup_bg: Color::Rgb(40, 42, 54),  // Background
            popup_text: Color::Rgb(255, 85, 85),  // Red
            icon_rust: Color::Rgb(255, 184, 108),  // Orange
            icon_maven: Color::Rgb(255, 85, 85),  // Red
            icon_flutter: Color::Rgb(139, 233, 253),  // Cyan
            icon_go: Color::Rgb(139, 233, 253),  // Cyan
            icon_python: Color::Rgb(241, 250, 140),  // Yellow
            icon_mise: Color::Rgb(255, 184, 108),  // Orange
            icon_worktree: Color::Rgb(80, 250, 123),  // Green
            icon_worktree_lock: Color::Rgb(248, 248, 242),  // Foreground
            icon_gitmodules: Color::Rgb(189, 147, 249),  // Purple
            icon_git: Color::Rgb(255, 121, 198),  // Pink
            icon_folder: Color::Rgb(241, 250, 140),  // Yellow
            icon_file: Color::Rgb(139, 233, 253),  // Cyan
        }
    }

    /// The palette named "JetBrains Darcula".
    pub fn jetbrains_darcula() -> (r: Self)
        ensures
            r.name@ == "JetBrains Darcula"@,
            r.background == Some(Color::Rgb(43, 43, 43)),
    {
        Theme {
            name: String::from_str("JetBrains Darcula"),
            background: Some(Color::Rgb(43, 43, 43)),
            title_try: Color::Rgb(78, 124, 238),  // Blueish
            title_rs: Color::Rgb(204, 120, 50),  // Orange
            search_title: Color::Rgb(106, 135, 89),  // Green
            search_border: Color::Rgb(128, 128, 128),  // Grey
            folder_title: Color::Rgb(255, 198, 109),  // Gold
            folder_border: Color::Rgb(128, 128, 128),  // Grey
            disk_title: Color::Rgb(204, 120, 50),  // Orange
            disk_border: Color::Rgb(128, 128, 128),  // Grey
            preview_title: Color::Rgb(78, 124, 238),  // Blueish
            preview_border: Color::Rgb(128, 128, 128),  // Grey
            legends_title: Color::Rgb(152, 118, 170),  // Purple
            legends_border: Color::Rgb(128, 128, 128),  // Grey
            list_date: Color::Rgb(128, 128, 128),  // Grey
            list_highlight_bg: Color::Rgb(33, 66, 131),  // Selection
            list_highlight_fg: Color::Rgb(187, 187, 187),  // Light Grey
            helpers_colors: Color::Rgb(128, 128, 128),  // Grey
            status_message: Color::Rgb(255, 198, 109),  // Gold
            popup_bg: Color::Rgb(60, 63, 65),  // Bg
            popup_text: Color::Rgb(204, 120, 50),  // Orange
            icon_rust: Color::Rgb(204, 120, 50),  // Orange
            icon_maven: Color::Rgb(255, 198, 109),  // Gold
            icon_flutter: Color::Rgb(78, 124, 238),  // Blue
            icon_go: Color::Rgb(0, 173, 216),  // Go cyan
            icon_python: Color::Rgb(255, 198, 109),  // Gold
            icon_mise: Color::Rgb(204, 120, 50),  // Orange
            icon_worktree: Color::Rgb(106, 135, 89),  // Green
            icon_worktree_lock: Color::Rgb(187, 187, 187),  // Light Grey
            icon_gitmodules: Color::Rgb(152, 118, 170),  // Purple
            icon_git: Color::Rgb(204, 120, 50),  // Orange
            icon_folder: Color::Rgb(255, 198, 109),  // Gold
            icon_file: Color::Rgb(128, 128, 128),  // Grey
        }
    }

    /// The palette named "Gruvbox Dark".
    pub fn gruvbox_dark() -> (r: Self)
        ensures
            r.name@ == "Gruvbox Dark"@,
            r.background == Some(Color::Rgb(40, 40, 40)),
    {
        Theme {
            name: String::from_str("Gruvbox Dark"),
            background: Some(Color::Rgb(40, 40, 40)),
            title_try: Color::Rgb(251, 73, 52),  // Red
            title_rs: Color::Rgb(250, 189, 47),  // Yellow
            search_title: Color::Rgb(184, 187, 38),  // Green
            search_border: Color::Rgb(168, 153, 132),  // Grey
            folder_title: Color::Rgb(250, 189, 47),  // Yellow
            folder_border: Color::Rgb(168, 153, 132),  // Grey
            disk_title: Color::Rgb(254, 128, 25),  // Orange
            disk_border: Color::Rgb(168, 153, 132),  // Grey
            preview_title: Color::Rgb(131, 165, 152),  // Aqua
            preview_border: Color::Rgb(168, 153, 132),  // Grey
            legends_title: Color::Rgb(211, 134, 155),  // Purple
            legends_border: Color::Rgb(168, 153, 132),  // Grey
            list_date: Color::Rgb(146, 131, 116),  // Grey
            list_highlight_bg: Color::Rgb(80, 73, 69),  // Bg2
            list_highlight_fg: Color::Rgb(235, 219, 178),  // Fg
            helpers_colors: Color::Rgb(168, 153, 132),  // Grey
            status_message: Color::Rgb(215, 153, 33),  // Orange
            popup_bg: Color::Rgb(40, 40, 40),  // Bg0
            popup_text: Color::Rgb(251, 73, 52),  // Red
            icon_rust: Color::Rgb(254, 128, 25),  // Orange
            icon_maven: Color::Rgb(251, 73, 52),  // Red
            icon_flutter: Color::Rgb(131, 165, 152),  // Aqua
            icon_go: Color::Rgb(131, 165, 152),  // Aqua
            icon_python: Color::Rgb(250, 189, 47),  // Yellow
            icon_mise: Color::Rgb(254, 128, 25),  // Orange
            icon_worktree: Color::Rgb(184, 187, 38),  // Green
            icon_worktree_lock: Color::Rgb(168, 153, 132),  // Grey
            icon_gitmodules: Color::Rgb(211, 134, 155),  // Purple
            icon_git: Color::Rgb(251, 73, 52),  // Red
            icon_folder: Color::Rgb(250, 189, 47),  // Yellow
            icon_file: Color::Rgb(146, 131, 116),  // Grey
        }
    }

    /// The palette named "Nord".
    pub fn nord() -> (r: Self)
        ensures
            r.name@ == "Nord"@,
            r.background == Some(Color::Rgb(46, 52, 64)),
    {
        Theme {
            name: String::from_str("Nord"),
            background: Some(Color::Rgb(46, 52, 64)),
            title_try: Color::Rgb(136, 192, 208),  // Frost Cyan
            title_rs: Color::Rgb(191, 97, 106),  // Aurora Red
            search_title: Color::Rgb(163, 190, 140),  // Aurora Green
            search_border: Color::Rgb(76, 86, 106),  // Polar Night 2
            folder_title: Color::Rgb(235, 203, 139),  // Aurora Yellow
            folder_border: Color::Rgb(76, 86, 106),  // Polar Night 2
            disk_title: Color::Rgb(208, 135, 112),  // Aurora Orange
            disk_border: Color::Rgb(76, 86, 106),  // Polar Night 2
            preview_title: Color::Rgb(136, 192, 208),  // Frost Cyan
            preview_border: Color::Rgb(76, 86, 106),  // Polar Night 2
            legends_title: Color::Rgb(180, 142, 173),  // Aurora Purple
            legends_border: Color::Rgb(76, 86, 106),  // Polar Night 2
            list_date: Color::Rgb(216, 222, 233),  // Snow Storm
            list_highlight_bg: Color::Rgb(67, 76, 94),  // Polar Night 3
            list_highlight_fg: Color::Rgb(236, 239, 244),  // Snow Storm 3
            helpers_colors: Color::Rgb(76, 86, 106),  // Polar Night 2
            status_message: Color::Rgb(235, 203, 139),  // Aurora Yellow
            popup_bg: Color::Rgb(46, 52, 64),  // Polar Night 0
            popup_text: Color::Rgb(191, 97, 106),  // Aurora Red
            icon_rust: Color::Rgb(208, 135, 112),  // Aurora Orange
            icon_maven: Color::Rgb(191, 97, 106),  // Aurora Red
            icon_flutter: Color::Rgb(136, 192, 208),  // Frost Cyan
            icon_go: Color::Rgb(136, 192, 208),  // Frost Cyan
            icon_python: Color::Rgb(235, 203, 139),  // Aurora Yellow
            icon_mise: Color::Rgb(208, 135, 112),  // Aurora Orange
            icon_worktree: Color::Rgb(163, 190, 140),  // Aurora Green
            icon_worktree_lock: Color::Rgb(216, 222, 233),  // Snow Storm
            icon_gitmodules: Color::Rgb(180, 142, 173),  // Aurora Purple
            icon_git: Color::Rgb(191, 97, 106),  // Aurora Red
            icon_folder: Color::Rgb(235, 203, 139),  // Aurora Yellow
            icon_file: Color::Rgb(216, 222, 233),  // Snow Storm
        }
    }

    /// The palette named "Tokyo Night".
    pub fn tokyo_night() -> (r: Self)
        ensures
            r.name@ == "Tokyo Night"@,
            r.background == Some(Color::Rgb(26, 27, 38)),
    {
        Theme {
            name: String::from_str("Tokyo Night"),
            background: Some(Color::Rgb(26, 27, 38)),
            title_try: Color::Rgb(122, 162, 247),  // Blue
            title_rs: Color::Rgb(247, 118, 142),  // Red
            search_title: Color::Rgb(158, 206, 106),  // Green
            search_border: Color::Rgb(86, 95, 137),  // Comment
            folder_title: Color::Rgb(224, 175, 104),  // Yellow
            folder_border: Color::Rgb(86, 95, 137),  // Comment
            disk_title: Color::Rgb(255, 158, 100),  // Orange
            disk_border: Color::Rgb(86, 95, 137),  // Comment
            preview_title: Color::Rgb(125, 207, 255),  // Cyan
            preview_border: Color::Rgb(86, 95, 137),  // Comment
            legends_title: Color::Rgb(187, 154, 247),  // Purple
            legends_border: Color::Rgb(86, 95, 137),  // Comment
            list_date: Color::Rgb(169, 177, 214),  // Fg
            list_highlight_bg: Color::Rgb(65, 72, 104),  // Terminal Black
            list_highlight_fg: Color::Rgb(192, 202, 245),  // Terminal White
            helpers_colors: Color::Rgb(86, 95, 137),  // Comment
            status_message: Color::Rgb(224, 175, 104),  // Yellow
            popup_bg: Color::Rgb(26, 27, 38),  // Bg
            popup_text: Color::Rgb(247, 118, 142),  // Red
            icon_rust: Color::Rgb(255, 158, 100),  // Orange
            icon_maven: Color::Rgb(247, 118, 142),  // Red
            icon_flutter: Color::Rgb(125, 207, 255),  // Cyan
            icon_go: Color::Rgb(125, 207, 255),  // Cyan
            icon_python: Color::Rgb(224, 175, 104),  // Yellow
            icon_mise: Color::Rgb(255, 158, 100),  // Orange
            icon_worktree: Color::Rgb(158, 206, 106),  // Green
            icon_worktree_lock: Color::Rgb(169, 177, 214),  // Fg
            icon_gitmodules: Color::Rgb(187, 154, 247),  // Purple
            icon_git: Color::Rgb(247, 118, 142),  // Red
            icon_folder: Color::Rgb(224, 175, 104),  // Yellow
            icon_file: Color::Rgb(169, 177, 214),  // Fg
        }
    }

    /// The palette named "One Dark Pro".
    pub fn one_dark_pro() -> (r: Self)
        ensures
            r.name@ == "One Dark Pro"@,
            r.background == Some(Color::Rgb(40, 44, 52)),
    {
        Theme {
            name: String::from_str("One Dark Pro"),
            background: Some(Color::Rgb(40, 44, 52)),
            title_try: Color::Rgb(97, 175, 239),  // Blue
            title_rs: Color::Rgb(224, 108, 117),  // Red
            search_title: Color::Rgb(209, 154, 102),  // Orange
            search_border: Color::Rgb(92, 99, 112),  // Comment
            folder_title: Color::Rgb(152, 195, 121),  // Green
            folder_border: Color::Rgb(92, 99, 112),  // Comment
            disk_title: Color::Rgb(229, 192, 123),  // Yellow
            disk_border: Color::Rgb(92, 99, 112),  // Comment
            preview_title: Color::Rgb(86, 182, 194),  // Cyan
            preview_border: Color::Rgb(92, 99, 112),  // Comment
            legends_title: Color::Rgb(198, 120, 221),  // Purple
            legends_border: Color::Rgb(92, 99, 112),  // Comment
            list_date: Color::Rgb(171, 178, 191),  // Fg
            list_highlight_bg: Color::Rgb(62, 68, 81),  // Selection
            list_highlight_fg: Color::Rgb(220, 223, 228),  // Bright Fg
            helpers_colors: Color::Rgb(92, 99, 112),  // Comment
            status_message: Color::Rgb(229, 192, 123),  // Yellow
            popup_bg: Color::Rgb(40, 44, 52),  // Bg
            popup_text: Color::Rgb(224, 108, 117),  // Red
            icon_rust: Color::Rgb(209, 154, 102),  // Orange
            icon_maven: Color::Rgb(224, 108, 117),  // Red
            icon_flutter: Color::Rgb(86, 182, 194),  // Cyan
            icon_go: Color::Rgb(86, 182, 194),  // Cyan
            icon_python: Color::Rgb(229, 192, 123),  // Yellow
            icon_mise: Color::Rgb(209, 154, 102),  // Orange
            icon_worktree: Color::Rgb(152, 195, 121),  // Green
            icon_worktree_lock: Color::Rgb(171, 178, 191),  // Fg
            icon_gitmodules: Color::Rgb(198, 120, 221),  // Purple
            icon_git: Color::Rgb(224, 108, 117),  // Red
            icon_folder: Color::Rgb(229, 192, 123),  // Yellow
            icon_file: Color::Rgb(171, 178, 191),  // Fg
        }
    }

    /// The palette named "Everforest".
    pub fn everforest() -> (r: Self)
        ensures
            r.name@ == "Everforest"@,
            r.background == Some(Color::Rgb(45, 51, 48)),
    {
        Theme {
            name: String::from_str("Everforest"),
            background: Some(Color::Rgb(45, 51, 48)),
            title_try: Color::Rgb(127, 187, 179),  // Aqua
            title_rs: Color::Rgb(230, 126, 128),  // Red
            search_title: Color::Rgb(230, 152, 117),  // Orange
            search_border: Color::Rgb(127, 132, 120),  // Grey
            folder_title: Color::Rgb(167, 192, 128),  // Green
            folder_border: Color::Rgb(127, 132, 120),  // Grey
            disk_title: Color::Rgb(219, 188, 127),  // Yellow
            disk_border: Color::Rgb(127, 132, 120),  // Grey
            preview_title: Color::Rgb(127, 187, 179),  // Aqua
            preview_border: Color::Rgb(127, 132, 120),  // Grey
            legends_title: Color::Rgb(214, 153, 182),  // Purple
            legends_border: Color::Rgb(127, 132, 120),  // Grey
            list_date: Color::Rgb(211, 198, 170),  // Fg
            list_highlight_bg: Color::Rgb(80, 88, 77),  // Bg Visual
            list_highlight_fg: Color::Rgb(211, 198, 170),  // Fg
            helpers_colors: Color::Rgb(127, 132, 120),  // Grey
            status_message: Color::Rgb(219, 188, 127),  // Yellow
            popup_bg: Color::Rgb(45, 51, 48),  // Bg
            popup_text: Color::Rgb(230, 126, 128),  // Red
            icon_rust: Color::Rgb(230, 152, 117),  // Orange
            icon_maven: Color::Rgb(230, 126, 128),  // Red
            icon_flutter: Color::Rgb(127, 187, 179),  // Aqua
            icon_go: Color::Rgb(127, 187, 179),  // Aqua
            icon_python: Color::Rgb(219, 188, 127),  // Yellow
            icon_mise: Color::Rgb(230, 152, 117),  // Orange
            icon_worktree: Color::Rgb(167, 192, 128),  // Green
            icon_worktree_lock: Color::Rgb(211, 198, 170),  // Fg
            icon_gitmodules: Color::Rgb(214, 153, 182),  // Purple
            icon_git: Color::Rgb(230, 126, 128),  // Red
            icon_folder: Color::Rgb(219, 188, 127),  // Yellow
            icon_file: Color::Rgb(211, 198, 170),  // Fg
        }
    }

    /// The palette named "SynthWave '84".
    pub fn synthwave_84() -> (r: Self)
        ensures
            r.name@ == "SynthWave '84"@,
            r.background == Some(Color::Rgb(38, 29, 53)),
    {
        Theme {
            name: String::from_str("SynthWave '84"),
            background: Some(Color::Rgb(38, 29, 53)),
            title_try: Color::Rgb(54, 244, 244),  // Cyan
            title_rs: Color::Rgb(255, 126, 185),  // Pink
            search_title: Color::Rgb(255, 203, 107),  // Yellow
            search_border: Color::Rgb(129, 91, 164),  // Purple dim
            folder_title: Color::Rgb(114, 241, 177),  // Green
            folder_border: Color::Rgb(129, 91, 164),  // Purple dim
            disk_title: Color::Rgb(255, 203, 107),  // Yellow
            disk_border: Color::Rgb(129, 91, 164),  // Purple dim
            preview_title: Color::Rgb(54, 244, 244),  // Cyan
            preview_border: Color::Rgb(129, 91, 164),  // Purple dim
            legends_title: Color::Rgb(254, 78, 174),  // Hot Pink
            legends_border: Color::Rgb(129, 91, 164),  // Purple dim
            list_date: Color::Rgb(187, 186, 201),  // Fg
            list_highlight_bg: Color::Rgb(57, 43, 75),  // Selection
            list_highlight_fg: Color::Rgb(255, 255, 255),  // White
            helpers_colors: Color::Rgb(129, 91, 164),  // Purple dim
            status_message: Color::Rgb(255, 203, 107),  // Yellow
            popup_bg: Color::Rgb(38, 29, 53),  // Bg
            popup_text: Color::Rgb(254, 78, 174),  // Hot Pink
            icon_rust: Color::Rgb(255, 140, 66),  // Orange
            icon_maven: Color::Rgb(255, 126, 185),  // Pink
            icon_flutter: Color::Rgb(54, 244, 244),  // Cyan
            icon_go: Color::Rgb(54, 244, 244),  // Cyan
            icon_python: Color::Rgb(255, 203, 107),  // Yellow
            icon_mise: Color::Rgb(255, 140, 66),  // Orange
            icon_worktree: Color::Rgb(114, 241, 177),  // Green
            icon_worktree_lock: Color::Rgb(187, 186, 201),  // Fg
            icon_gitmodules: Color::Rgb(254, 78, 174),  // Hot Pink
            icon_git: Color::Rgb(255, 126, 185),  // Pink
            icon_folder: Color::Rgb(255, 203, 107),  // Yellow
            icon_file: Color::Rgb(187, 186, 201),  // Fg
        }
    }

    /// The palette named "OLED True Black".
    pub fn oled_true_black() -> (r: Self)
        ensures
            r.name@ == "OLED True Black"@,
            r.background == Some(Color::Rgb(0, 0, 0)),
    {
        Theme {
            name: String::from_str("OLED True Black"),
            background: Some(Color::Rgb(0, 0, 0)),
            title_try: Color::Rgb(0, 200, 255),  // Bright Cyan
            title_rs: Color::Rgb(255, 80, 100),  // Bright Red
            search_title: Color::Rgb(255, 180, 0),  // Orange
            search_border: Color::Rgb(60, 60, 60),  // Dark Grey
            folder_title: Color::Rgb(0, 230, 130),  // Bright Green
            folder_border: Color::Rgb(60, 60, 60),  // Dark Grey
            disk_title: Color::Rgb(255, 220, 0),  // Yellow
            disk_border: Color::Rgb(60, 60, 60),  // Dark Grey
            preview_title: Color::Rgb(0, 200, 255),  // Bright Cyan
            preview_border: Color::Rgb(60, 60, 60),  // Dark Grey
            legends_title: Color::Rgb(200, 100, 255),  // Purple
            legends_border: Color::Rgb(60, 60, 60),  // Dark Grey
            list_date: Color::Rgb(180, 180, 180),  // Light Grey
            list_highlight_bg: Color::Rgb(30, 30, 30),  // Near Black
            list_highlight_fg: Color::Rgb(255, 255, 255),  // White
            helpers_colors: Color::Rgb(100, 100, 100),  // Grey
            status_message: Color::Rgb(255, 220, 0),  // Yellow
            popup_bg: Color::Rgb(0, 0, 0),  // True Black
            popup_text: Color::Rgb(255, 80, 100),  // Bright Red
            icon_rust: Color::Rgb(255, 120, 50),  // Bright Orange
            icon_maven: Color::Rgb(255, 80, 100),  // Bright Red
            icon_flutter: Color::Rgb(0, 200, 255),  // Bright Cyan
            icon_go: Color::Rgb(0, 200, 255),  // Bright Cyan
            icon_python: Color::Rgb(255, 220, 0),  // Yellow
            icon_mise: Color::Rgb(255, 180, 0),  // Orange
            icon_worktree: Color::Rgb(0, 230, 130),  // Bright Green
            icon_worktree_lock: Color::Rgb(180, 180, 180),  // Light Grey
            icon_gitmodules: Color::Rgb(200, 100, 255),  // Purple
            icon_git: Color::Rgb(255, 80, 100),  // Bright Red
            icon_folder: Color::Rgb(255, 220, 0),  // Yellow
            icon_file: Color::Rgb(180, 180, 180),  // Light Grey
        }
    }

    /// The palette named "Silver Gray".
    pub fn silver_gray() -> (r: Self)
        ensures
            r.name@ == "Silver Gray"@,
            r.background == Some(Color::Rgb(47, 47, 47)),
    {
        Theme {
            name: String::from_str("Silver Gray"),
            background: Some(Color::Rgb(47, 47, 47)),
            title_try: Color::Rgb(100, 149, 237),  // Cornflower Blue
            title_rs: Color::Rgb(205, 92, 92),  // Indian Red
            search_title: Color::Rgb(218, 165, 32),  // Goldenrod
            search_border: Color::Rgb(128, 128, 128),  // Gray
            folder_title: Color::Rgb(144, 238, 144),  // Light Green
            folder_border: Color::Rgb(128, 128, 128),  // Gray
            disk_title: Color::Rgb(240, 230, 140),  // Khaki
            disk_border: Color::Rgb(128, 128, 128),  // Gray
            preview_title: Color::Rgb(176, 196, 222),  // Light Steel Blue
            preview_border: Color::Rgb(128, 128, 128),  // Gray
            legends_title: Color::Rgb(186, 85, 211),  // Medium Orchid
            legends_border: Color::Rgb(128, 128, 128),  // Gray
            list_date: Color::Rgb(192, 192, 192),  // Silver
            list_highlight_bg: Color::Rgb(70, 70, 70),  // Dark Gray
            list_highlight_fg: Color::Rgb(245, 245, 245),  // White Smoke
            helpers_colors: Color::Rgb(128, 128, 128),  // Gray
            status_message: Color::Rgb(240, 230, 140),  // Khaki
            popup_bg: Color::Rgb(47, 47, 47),  // Dark Bg
            popup_text: Color::Rgb(205, 92, 92),  // Indian Red
            icon_rust: Color::Rgb(210, 105, 30),  // Chocolate
            icon_maven: Color::Rgb(205, 92, 92),  // Indian Red
            icon_flutter: Color::Rgb(100, 149, 237),  // Cornflower Blue
            icon_go: Color::Rgb(176, 196, 222),  // Light Steel Blue
            icon_python: Color::Rgb(240, 230, 140),  // Khaki
            icon_mise: Color::Rgb(218, 165, 32),  // Goldenrod
            icon_worktree: Color::Rgb(144, 238, 144),  // Light Green
            icon_worktree_lock: Color::Rgb(192, 192, 192),  // Silver
            icon_gitmodules: Color::Rgb(186, 85, 211),  // Medium Orchid
            icon_git: Color::Rgb(205, 92, 92),  // Indian Red
            icon_folder: Color::Rgb(240, 230, 140),  // Khaki
            icon_file: Color::Rgb(192, 192, 192),  // Silver
        }
    }

    /// The palette named "Black & White".
    pub fn black_and_white() -> (r: Self)
        ensures
            r.name@ == "Black & White"@,
            r.background == Some(Color::Black),
    {
        Theme {
            name: String::from_str("Black & White"),
            background: Some(Color::Black),
            title_try: Color::White,
            title_rs: Color::White,
            search_title: Color::White,
            search_border: Color::Gray,
            folder_title: Color::White,
            folder_border: Color::Gray,
            disk_title: Color::White,
            disk_border: Color::Gray,
            preview_title: Color::White,
            preview_border: Color::Gray,
            legends_title: Color::White,
            legends_border: Color::Gray,
            list_date: Color::Gray,
            list_highlight_bg: Color::White,
            list_highlight_fg: Color::Black,
            helpers_colors: Color::Gray,
            status_message: Color::White,
            popup_bg: Color::Black,
            popup_text: Color::White,  // Black & White icon colors
            icon_rust: Color::White,
            icon_maven: Color::White,
            icon_flutter: Color::White,
            icon_go: Color::White,
            icon_python: Color::White,
            icon_mise: Color::Gray,
            icon_worktree: Color::White,
            icon_worktree_lock: Color::Gray,
            icon_gitmodules: Color::Gray,
            icon_git: Color::White,
            icon_folder: Color::White,
            icon_file: Color::Gray,
        }
    }

    /// The palette named "Matrix".
    pub fn matrix() -> (r: Self)
        ensures
            r.name@ == "Matrix"@,
            r.background == Some(Color::Rgb(0, 10, 0)),
    {
        Theme {
            name: String::from_str("Matrix"),
            background: Some(Color::Rgb(0, 10, 0)),
            title_try: Color::Rgb(0, 255, 65),  // Matrix green
            title_rs: Color::Rgb(0, 200, 50),  // Darker green
            search_title: Color::Rgb(0, 255, 65),  // Matrix green
            search_border: Color::Rgb(0, 100, 30),  // Dark green
            folder_title: Color::Rgb(0, 255, 65),  // Matrix green
            folder_border: Color::Rgb(0, 100, 30),  // Dark green
            disk_title: Color::Rgb(0, 255, 65),  // Matrix green
            disk_border: Color::Rgb(0, 100, 30),  // Dark green
            preview_title: Color::Rgb(0, 255, 65),  // Matrix green
            preview_border: Color::Rgb(0, 100, 30),  // Dark green
            legends_title: Color::Rgb(0, 200, 50),  // Darker green
            legends_border: Color::Rgb(0, 100, 30),  // Dark green
            list_date: Color::Rgb(0, 150, 40),  // Muted green
            list_highlight_bg: Color::Rgb(0, 80, 25),  // Selection green
            list_highlight_fg: Color::Rgb(0, 255, 65),  // Bright green
            helpers_colors: Color::Rgb(0, 150, 40),  // Muted green
            status_message: Color::Rgb(0, 255, 65),  // Matrix green
            popup_bg: Color::Rgb(0, 10, 0),  // Almost black with green tint
            popup_text: Color::Rgb(0, 255, 65),  // Matrix green
            icon_rust: Color::Rgb(0, 255, 65),
            icon_maven: Color::Rgb(0, 220, 55),
            icon_flutter: Color::Rgb(0, 200, 50),
            icon_go: Color::Rgb(0, 180, 45),
            icon_python: Color::Rgb(0, 255, 65),
            icon_mise: Color::Rgb(0, 150, 40),
            icon_worktree: Color::Rgb(0, 200, 50),
            icon_worktree_lock: Color::Rgb(0, 120, 35),
            icon_gitmodules: Color::Rgb(0, 180, 45),
            icon_git: Color::Rgb(0, 255, 65),
            icon_folder: Color::Rgb(0, 220, 55),
            icon_file: Color::Rgb(0, 150, 40),
        }
    }

    /// The palette named "Tron".
    pub fn tron() -> (r: Self)
        ensures
            r.name@ == "Tron"@,
            r.background == Some(Color::Rgb(0, 10, 15)),
    {
        Theme {
            name: String::from_str("Tron"),
            background: Some(Color::Rgb(0, 10, 15)),
            title_try: Color::Rgb(0, 255, 255),  // Cyan neon
            title_rs: Color::Rgb(255, 150, 0),  // Orange accent
            search_title: Color::Rgb(0, 255, 255),  // Cyan neon
            search_border: Color::Rgb(0, 150, 180),  // Darker cyan
            folder_title: Color::Rgb(0, 255, 255),  // Cyan neon
            folder_border: Color::Rgb(0, 150, 180),  // Darker cyan
            disk_title: Color::Rgb(255, 150, 0),  // Orange accent
            disk_border: Color::Rgb(0, 150, 180),  // Darker cyan
            preview_title: Color::Rgb(0, 255, 255),  // Cyan neon
            preview_border: Color::Rgb(0, 150, 180),  // Darker cyan
            legends_title: Color::Rgb(0, 200, 220),  // Light cyan
            legends_border: Color::Rgb(0, 150, 180),  // Darker cyan
            list_date: Color::Rgb(0, 180, 200),  // Muted cyan
            list_highlight_bg: Color::Rgb(0, 80, 100),  // Selection
            list_highlight_fg: Color::Rgb(0, 255, 255),  // Cyan neon
            helpers_colors: Color::Rgb(0, 150, 180),  // Darker cyan
            status_message: Color::Rgb(255, 150, 0),  // Orange accent
            popup_bg: Color::Rgb(0, 10, 15),  // Almost black with blue tint
            popup_text: Color::Rgb(0, 255, 255),  // Cyan neon
            icon_rust: Color::Rgb(255, 150, 0),  // Orange
            icon_maven: Color::Rgb(255, 100, 0),  // Dark orange
            icon_flutter: Color::Rgb(0, 255, 255),  // Cyan
            icon_go: Color::Rgb(0, 220, 230),  // Light cyan
            icon_python: Color::Rgb(255, 200, 0),  // Yellow-orange
            icon_mise: Color::Rgb(255, 150, 0),  // Orange
            icon_worktree: Color::Rgb(0, 255, 255),  // Cyan
            icon_worktree_lock: Color::Rgb(0, 150, 180),  // Darker cyan
            icon_gitmodules: Color::Rgb(0, 200, 220),  // Light cyan
            icon_git: Color::Rgb(255, 150, 0),  // Orange
            icon_folder: Color::Rgb(0, 255, 255),  // Cyan
            icon_file: Color::Rgb(0, 180, 200),  // Muted cyan
        }
    }

    /// The palette named "Catppuccin Macchiato".
    pub fn catppuccin_macchiato() -> (r: Self)
        ensures
            r.name@ == "Catppuccin Macchiato"@,
            r.background == Some(Color::Rgb(36, 39, 58)),
    {
        Theme {
            name: String::from_str("Catppuccin Macchiato"),
            background: Some(Color::Rgb(36, 39, 58)),
            title_try: Color::Rgb(138, 173, 244),  // Blue
            title_rs: Color::Rgb(238, 153, 160),  // Maroon
            search_title: Color::Rgb(245, 169, 127),  // Peach
            search_border: Color::Rgb(147, 154, 183),  // Overlay1
            folder_title: Color::Rgb(166, 218, 149),  // Green
            folder_border: Color::Rgb(147, 154, 183),  // Overlay1
            disk_title: Color::Rgb(238, 212, 159),  // Yellow
            disk_border: Color::Rgb(147, 154, 183),  // Overlay1
            preview_title: Color::Rgb(138, 173, 244),  // Blue
            preview_border: Color::Rgb(147, 154, 183),  // Overlay1
            legends_title: Color::Rgb(198, 160, 246),  // Mauve
            legends_border: Color::Rgb(147, 154, 183),  // Overlay1
            list_date: Color::Rgb(165, 173, 203),  // Subtext0
            list_highlight_bg: Color::Rgb(91, 96, 120),  // Surface2
            list_highlight_fg: Color::Rgb(202, 211, 245),  // Text
            helpers_colors: Color::Rgb(147, 154, 183),  // Overlay1
            status_message: Color::Rgb(238, 212, 159),  // Yellow
            popup_bg: Color::Rgb(36, 39, 58),  // Base
            popup_text: Color::Rgb(237, 135, 150),  // Red
            icon_rust: Color::Rgb(245, 169, 127),  // Peach
            icon_maven: Color::Rgb(237, 135, 150),  // Red
            icon_flutter: Color::Rgb(138, 173, 244),  // Blue
            icon_go: Color::Rgb(139, 213, 202),  // Teal
            icon_python: Color::Rgb(238, 212, 159),  // Yellow
            icon_mise: Color::Rgb(245, 169, 127),  // Peach
            icon_worktree: Color::Rgb(166, 218, 149),  // Green
            icon_worktree_lock: Color::Rgb(165, 173, 203),  // Subtext0
            icon_gitmodules: Color::Rgb(198, 160, 246),  // Mauve
            icon_git: Color::Rgb(237, 135, 150),  // Red
            icon_folder: Color::Rgb(238, 212, 159),  // Yellow
            icon_file: Color::Rgb(165, 173, 203),  // Subtext0
        }
    }

    /// The whole registry, in its fixed order: the default palette first,
    /// then every named palette. Names are pairwise distinct, and every
    /// palette but the first carries an explicit background.
    pub fn all() -> (r: Vec<Theme>)
        ensures
            r@.len() == 16,
            r@[0].name@ == "Default"@,
            r@[1].name@ == "Catppuccin Mocha"@,
            r@[2].name@ == "Catppuccin Macchiato"@,
            r@[3].name@ == "Dracula"@,
            r@[4].name@ == "JetBrains Darcula"@,
            r@[5].name@ == "Gruvbox Dark"@,
            r@[6].name@ == "Nord"@,
            r@[7].name@ == "Tokyo Night"@,
            r@[8].name@ == "One Dark Pro"@,
            r@[9].name@ == "Everforest"@,
            r@[10].name@ == "SynthWave '84"@,
            r@[11].name@ == "OLED True Black"@,
            r@[12].name@ == "Silver Gray"@,
            r@[13].name@ == "Black & White"@,
            r@[14].name@ == "Matrix"@,
            r@[15].name@ == "Tron"@,
            r@[0].background is None,
            forall|i: int| 1 <= i < 16 ==> (#[trigger] r@[i].background) is Some,
            forall|i: int, j: int| 0 <= i < j < 16 ==> r@[i].name@ != r@[j].name@,
    {
        let mut r: Vec<Theme> = Vec::new();
        r.push(Theme::default_theme());
        r.push(Theme::catppuccin_mocha());
        r.push(Theme::catppuccin_macchiato());
        r.push(Theme::dracula());
        r.push(Theme::jetbrains_darcula());
        r.push(Theme::gruvbox_dark());
        r.push(Theme::nord());
        r.push(Theme::tokyo_night());
        r.push(Theme::one_dark_pro());
        r.push(Theme::everforest());
        r.push(Theme::synthwave_84());
        r.push(Theme::oled_true_black());
        r.push(Theme::silver_gray());
        r.push(Theme::black_and_white());
        r.push(Theme::matrix());
        r.push(Theme::tron());
        proof {
            reveal_strlit("Default");
            reveal_strlit("Catppuccin Mocha");
            reveal_strlit("Catppuccin Macchiato");
            reveal_strlit("Dracula");
            reveal_strlit("JetBrains Darcula");
            reveal_strlit("Gruvbox Dark");
            reveal_strlit("Nord");
            reveal_strlit("Tokyo Night");
            reveal_strlit("One Dark Pro");
            reveal_strlit("Everforest");
            reveal_strlit("SynthWave \'84");
            reveal_strlit("OLED True Black");
            reveal_strlit("Silver Gray");
            reveal_strlit("Black & White");
            reveal_strlit("Matrix");
            reveal_strlit("Tron");
            assert("Default"@.len() == 7);
            assert("Catppuccin Mocha"@.len() == 16);
            assert("Catppuccin Macchiato"@.len() == 20);
            assert("Dracula"@.len() == 7);
            assert("JetBrains Darcula"@.len() == 17);
            assert("Gruvbox Dark"@.len() == 12);
            assert("Nord"@.len() == 4);
            assert("Tokyo Night"@.len() == 11);
            assert("One Dark Pro"@.len() == 12);
            assert("Everforest"@.len() == 10);
            assert("SynthWave \'84"@.len() == 13);
            assert("OLED True Black"@.len() == 15);
            assert("Silver Gray"@.len() == 11);
            assert("Black & White"@.len() == 13);
            assert("Matrix"@.len() == 6);
            assert("Tron"@.len() == 4);
            assert("Default"@[1] != "Dracula"@[1]);
            assert("Gruvbox Dark"@[0] != "One Dark Pro"@[0]);
            assert("Nord"@[0] != "Tron"@[0]);
            assert("Tokyo Night"@[0] != "Silver Gray"@[0]);
            assert("SynthWave \'84"@[0] != "Black & White"@[0]);
        }
        r
    }

    /// Looks a palette up by its exact name in a palette list.
    pub fn by_name(themes: &Vec<Theme>, name: &str) -> (r: Option<Theme>)
        ensures
            match r {
                Some(t) => t.name@ == name@ && exists|i: int|
                    0 <= i < themes@.len() && #[trigger] themes@[i] == t,
                None => forall|i: int| 0 <= i < themes@.len() ==> themes@[i].name@ != name@,
            },
    {
        let mut i: usize = 0;
        while i < themes.len()
            invariant
                0 <= i <= themes@.len(),
                forall|k: int| 0 <= k < i ==> themes@[k].name@ != name@,
            decreases themes@.len() - i,
        {
            if str_eq(themes[i].name.as_str(), name) {
                return Some(themes[i].clone());
            }
            i += 1;
        }
        None
    }
}

} // verus!
