//! The persisted configuration, as plain values. Only the palette's name
//! is ever written out — full color values are never round-tripped when a
//! registry palette is active. Reading and writing the file itself is the
//! surrounding binary's job.

use vstd::prelude::*;

use crate::themes::Theme;

verus! {

/// The configuration record as it is persisted: the workspace root, the
/// active palette's name, the editor command, and the two policy flags.
/// Every field is optional in the file.
pub struct Config {
    pub tries_path: Option<String>,
    pub theme: Option<String>,
    pub editor: Option<String>,
    pub apply_date_prefix: Option<bool>,
    pub transparent_background: Option<bool>,
}

/// What a theme commit persists: the current workspace root, the
/// palette's name (never its colors), the editor command and the two
/// policy flags, exactly as the session holds them.
pub fn config_for_save(
    theme: &Theme,
    tries_path: &str,
    editor: &Option<String>,
    apply_date_prefix: Option<bool>,
    transparent_background: Option<bool>,
) -> (c: Config)
    ensures
        (c.tries_path matches Some(p) && p@ == tries_path@),
        (c.theme matches Some(n) && n == theme.name),
        c.editor == *editor,
        c.apply_date_prefix == apply_date_prefix,
        c.transparent_background == transparent_background,
{
    let editor_copy = match editor {
        Some(e) => Some(e.clone()),
        None => None,
    };
    Config {
        tries_path: Some(tries_path.to_owned()),
        theme: Some(theme.name.clone()),
        editor: editor_copy,
        apply_date_prefix,
        transparent_background,
    }
}

} // verus!
