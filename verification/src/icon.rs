use vstd::prelude::*;

verus! {

/// Icon candidates for one request, in the order the preference chain
/// consults them. The two inline fields hold the stored-icon path produced
/// from the corresponding inline image payload of the request's hints, when
/// one was present and usable; `theme_icon` holds the result of a theme
/// lookup for the request's icon name. Producing these candidates is the
/// icon resolver's business; choosing among them is decided here.
#[derive(Clone, Debug, PartialEq, Eq)]
pub struct IconSources {
    pub inline_image: Option<String>,
    pub inline_image_alt: Option<String>,
    pub theme_icon: Option<String>,
}

/// The icon the preference chain selects: an inline image outranks the
/// alternate inline image, which outranks any name-based choice; the theme
/// lookup is honoured only for requests from a named application, and the
/// literal icon name is the final fallback.
pub open spec fn spec_resolve_icon(
    sources: IconSources,
    app_name: Seq<char>,
    app_icon: Seq<char>,
) -> Seq<char> {
    match sources.inline_image {
        Some(icon) => icon@,
        None => match sources.inline_image_alt {
            Some(icon) => icon@,
            None => if app_name.len() > 0 {
                match sources.theme_icon {
                    Some(icon) => icon@,
                    None => app_icon,
                }
            } else {
                app_icon
            },
        },
    }
}

/// Select the icon of a notification from its candidates.
pub fn resolve_icon(sources: &IconSources, app_name: &str, app_icon: &str) -> (icon: String)
    ensures
        icon@ == spec_resolve_icon(*sources, app_name@, app_icon@),
{
    if let Some(icon) = &sources.inline_image {
        icon.clone()
    } else if let Some(icon) = &sources.inline_image_alt {
        icon.clone()
    } else if !app_name.is_empty() {
        match &sources.theme_icon {
            Some(icon) => icon.clone(),
            None => app_icon.to_owned(),
        }
    } else {
        app_icon.to_owned()
    }
}

} // verus!
