//! The resource locations that a render context is created with.
use vstd::prelude::*;

use crate::protocol::ResourceRootsPayload;
use crate::validation::ValidationError;

verus! {

/// Where the renderer finds its assets, tools and scratch space; each path is held as text.
#[derive(Debug, Clone, PartialEq, Eq)]
pub struct ResourceRoots {
    pub assets_dir: String,
    pub fonts_dir: String,
    pub resource_pack_dir: String,
    pub ffmpeg_path: String,
    pub temp_dir: String,
    pub renderer_host_path: String,
}

/// The first of the required roots that is empty, in the order in which they are checked:
/// assets, fonts, temporary files, renderer host, and last the FFmpeg path. Only the resource
/// pack directory may be empty.
pub open spec fn missing_root(r: ResourceRoots) -> Option<&'static str> {
    if r.assets_dir@.len() == 0 {
        Some("assets_dir")
    } else if r.fonts_dir@.len() == 0 {
        Some("fonts_dir")
    } else if r.temp_dir@.len() == 0 {
        Some("temp_dir")
    } else if r.renderer_host_path@.len() == 0 {
        Some("renderer_host_path")
    } else if r.ffmpeg_path@.len() == 0 {
        Some("ffmpeg_path")
    } else {
        None
    }
}

impl ResourceRoots {
    pub fn validate(&self) -> (r: Result<(), ValidationError>)
        ensures
            match missing_root(*self) {
                None => r is Ok,
                Some(field) => r == Err::<(), ValidationError>(ValidationError::MissingPath(field)),
            },
    {
        if self.assets_dir.as_str().is_empty() {
            return Err(ValidationError::MissingPath("assets_dir"));
        }
        if self.fonts_dir.as_str().is_empty() {
            return Err(ValidationError::MissingPath("fonts_dir"));
        }
        if self.temp_dir.as_str().is_empty() {
            return Err(ValidationError::MissingPath("temp_dir"));
        }
        if self.renderer_host_path.as_str().is_empty() {
            return Err(ValidationError::MissingPath("renderer_host_path"));
        }
        if self.ffmpeg_path.as_str().is_empty() {
            return Err(ValidationError::MissingPath("ffmpeg_path"));
        }
        Ok(())
    }

    /// The roots as carried in a render request to the renderer host.
    pub fn to_payload(&self) -> (p: ResourceRootsPayload)
        ensures
            p.assets_dir@ == self.assets_dir@,
            p.fonts_dir@ == self.fonts_dir@,
            p.resource_pack_dir@ == self.resource_pack_dir@,
            p.ffmpeg_path@ == self.ffmpeg_path@,
            p.temp_dir@ == self.temp_dir@,
            p.renderer_host_path@ == self.renderer_host_path@,
    {
        ResourceRootsPayload {
            assets_dir: self.assets_dir.as_str().to_owned(),
            fonts_dir: self.fonts_dir.as_str().to_owned(),
            resource_pack_dir: self.resource_pack_dir.as_str().to_owned(),
            ffmpeg_path: self.ffmpeg_path.as_str().to_owned(),
            temp_dir: self.temp_dir.as_str().to_owned(),
            renderer_host_path: self.renderer_host_path.as_str().to_owned(),
        }
    }

    /// The roots that a render request carries.
    pub fn from_payload(p: &ResourceRootsPayload) -> (r: ResourceRoots)
        ensures
            r.assets_dir@ == p.assets_dir@,
            r.fonts_dir@ == p.fonts_dir@,
            r.resource_pack_dir@ == p.resource_pack_dir@,
            r.ffmpeg_path@ == p.ffmpeg_path@,
            r.temp_dir@ == p.temp_dir@,
            r.renderer_host_path@ == p.renderer_host_path@,
    {
        ResourceRoots {
            assets_dir: p.assets_dir.as_str().to_owned(),
            fonts_dir: p.fonts_dir.as_str().to_owned(),
            resource_pack_dir: p.resource_pack_dir.as_str().to_owned(),
            ffmpeg_path: p.ffmpeg_path.as_str().to_owned(),
            temp_dir: p.temp_dir.as_str().to_owned(),
            renderer_host_path: p.renderer_host_path.as_str().to_owned(),
        }
    }
}

/// The two paths that a render request must name, checked in this order.
pub fn validate_request_paths(chart_path: &str, output_path: &str) -> (r: Result<(), ValidationError>)
    ensures
        chart_path@.len() == 0 ==> r == Err::<(), ValidationError>(
            ValidationError::MissingPath("chart_path"),
        ),
        chart_path@.len() != 0 && output_path@.len() == 0 ==> r == Err::<(), ValidationError>(
            ValidationError::MissingPath("output_path"),
        ),
        chart_path@.len() != 0 && output_path@.len() != 0 ==> r is Ok,
{
    if chart_path.is_empty() {
        return Err(ValidationError::MissingPath("chart_path"));
    }
    if output_path.is_empty() {
        return Err(ValidationError::MissingPath("output_path"));
    }
    Ok(())
}

} // verus!
