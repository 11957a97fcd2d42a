//! A render context: the resource roots it was created with, the text of its last error, and
//! the one render job that may be running in it.
use vstd::prelude::*;

use crate::abi::{
    bytes_view, copied_utf8, copy_utf8, header_ok, phi_status_t, validate_header,
    phi_struct_header_t, write_bytes, BufferWrite, buffer_write, PHI_STATUS_BUSY,
    PHI_STATUS_INVALID_CONFIG, PHI_STATUS_OK,
};
use crate::request::{missing_root, ResourceRoots};

verus! {

/// The roots copied from six caller views, in the order assets, fonts, resource packs, FFmpeg,
/// temporary files and renderer host: the first failed copy decides the status; then the
/// roots must validate.
pub open spec fn roots_result(views: Seq<Option<Seq<u8>>>) -> Result<Seq<Seq<char>>, phi_status_t>
    decreases views.len(),
{
    if views.len() == 0 {
        Ok(Seq::empty())
    } else {
        match copied_utf8(views[0]) {
            Err(s) => Err(s),
            Ok(first) => match roots_result(views.drop_first()) {
                Err(s) => Err(s),
                Ok(rest) => Ok(seq![first] + rest),
            },
        }
    }
}

/// The roots as a sequence of texts, in the order in which they are copied.
pub open spec fn roots_texts(r: ResourceRoots) -> Seq<Seq<char>> {
    seq![
        r.assets_dir@,
        r.fonts_dir@,
        r.resource_pack_dir@,
        r.ffmpeg_path@,
        r.temp_dir@,
        r.renderer_host_path@,
    ]
}

/// Copies the six resource-root views of the context options and validates them; a required
/// root (every one but the resource pack directory) that is empty makes an invalid
/// configuration.
pub fn resource_roots_from_ffi(
    assets_dir: Option<&[u8]>,
    fonts_dir: Option<&[u8]>,
    resource_pack_dir: Option<&[u8]>,
    ffmpeg_path: Option<&[u8]>,
    temp_dir: Option<&[u8]>,
    renderer_host_path: Option<&[u8]>,
) -> (r: Result<ResourceRoots, phi_status_t>)
    ensures
        ({
            let views = seq![
                bytes_view(assets_dir),
                bytes_view(fonts_dir),
                bytes_view(resource_pack_dir),
                bytes_view(ffmpeg_path),
                bytes_view(temp_dir),
                bytes_view(renderer_host_path),
            ];
            match roots_result(views) {
                Err(s) => r == Err::<ResourceRoots, phi_status_t>(s),
                Ok(texts) => match r {
                    Ok(roots) => roots_texts(roots) == texts && missing_root(roots) is None,
                    Err(s) => s == PHI_STATUS_INVALID_CONFIG && texts.len() == 6 && (texts[0].len()
                        == 0 || texts[1].len() == 0 || texts[3].len() == 0 || texts[4].len() == 0 || texts[5].len()
                        == 0),
                },
            }
        }),
{
    let ghost views = seq![
        bytes_view(assets_dir),
        bytes_view(fonts_dir),
        bytes_view(resource_pack_dir),
        bytes_view(ffmpeg_path),
        bytes_view(temp_dir),
        bytes_view(renderer_host_path),
    ];
    proof {
        reveal_with_fuel(roots_result, 7);
        assert(views.drop_first() =~= seq![views[1], views[2], views[3], views[4], views[5]]);
        assert(views.drop_first().drop_first() =~= seq![views[2], views[3], views[4], views[5]]);
        assert(views.drop_first().drop_first().drop_first() =~= seq![views[3], views[4], views[5]]);
        assert(views.drop_first().drop_first().drop_first().drop_first() =~= seq![views[4], views[5]]);
        assert(views.drop_first().drop_first().drop_first().drop_first().drop_first() =~= seq![views[5]]);
        assert(views.drop_first().drop_first().drop_first().drop_first().drop_first().drop_first() =~= Seq::<Option<Seq<u8>>>::empty());
    }
    let a = match copy_utf8(assets_dir) {
        Ok(v) => v,
        Err(s) => return Err(s),
    };
    let f = match copy_utf8(fonts_dir) {
        Ok(v) => v,
        Err(s) => return Err(s),
    };
    let p = match copy_utf8(resource_pack_dir) {
        Ok(v) => v,
        Err(s) => return Err(s),
    };
    let m = match copy_utf8(ffmpeg_path) {
        Ok(v) => v,
        Err(s) => return Err(s),
    };
    let t = match copy_utf8(temp_dir) {
        Ok(v) => v,
        Err(s) => return Err(s),
    };
    let h = match copy_utf8(renderer_host_path) {
        Ok(v) => v,
        Err(s) => return Err(s),
    };
    let roots = ResourceRoots {
        assets_dir: a,
        fonts_dir: f,
        resource_pack_dir: p,
        ffmpeg_path: m,
        temp_dir: t,
        renderer_host_path: h,
    };
    assert(roots_result(views) == Ok::<Seq<Seq<char>>, phi_status_t>(roots_texts(roots))) by {
        assert(seq![roots.renderer_host_path@] + Seq::<Seq<char>>::empty() =~= seq![roots.renderer_host_path@]);
        assert(roots_texts(roots) =~= seq![roots.assets_dir@] + (seq![roots.fonts_dir@] + (seq![roots.resource_pack_dir@] + (seq![roots.ffmpeg_path@] + (seq![roots.temp_dir@] + seq![roots.renderer_host_path@])))));
    }
    match roots.validate() {
        Ok(()) => Ok(roots),
        Err(_) => Err(PHI_STATUS_INVALID_CONFIG),
    }
}

pub struct phi_context {
    resource_roots: ResourceRoots,
    last_error: String,
    active_job: Option<u64>,
}

impl phi_context {
    pub closed spec fn roots(&self) -> ResourceRoots {
        self.resource_roots
    }

    pub closed spec fn last_error_text(&self) -> Seq<char> {
        self.last_error@
    }

    pub closed spec fn active(&self) -> Option<u64> {
        self.active_job
    }

    /// A context for the given options: their header must match this ABI and their roots must
    /// copy and validate. A new context has no error and no job.
    pub fn create(
        header: phi_struct_header_t,
        expected_size: usize,
        roots: Result<ResourceRoots, phi_status_t>,
    ) -> (r: Result<phi_context, phi_status_t>)
        ensures
            !header_ok(header.struct_size, header.abi_version, expected_size) ==> (r matches Err(
                s,
            ) && s == crate::abi::PHI_STATUS_ABI_MISMATCH),
            header_ok(header.struct_size, header.abi_version, expected_size) ==> match roots {
                Err(s) => (r matches Err(t) && t == s),
                Ok(rr) => (r matches Ok(c) && c.roots() == rr && c.last_error_text().len() == 0
                    && c.active() is None),
            },
    {
        let status = validate_header(header.struct_size, header.abi_version, expected_size);
        if status != PHI_STATUS_OK {
            return Err(status);
        }
        match roots {
            Err(s) => Err(s),
            Ok(resource_roots) => Ok(
                phi_context { resource_roots, last_error: String::new(), active_job: None },
            ),
        }
    }

    pub fn set_error(&mut self, message: String)
        ensures
            final(self).last_error_text() == message@,
            final(self).roots() == old(self).roots(),
            final(self).active() == old(self).active(),
    {
        self.last_error = message;
    }

    pub fn resource_roots(&self) -> (r: &ResourceRoots)
        ensures
            *r == self.roots(),
    {
        &self.resource_roots
    }

    pub fn clear_error(&mut self) -> (s: phi_status_t)
        ensures
            s == PHI_STATUS_OK,
            final(self).last_error_text().len() == 0,
            final(self).roots() == old(self).roots(),
            final(self).active() == old(self).active(),
    {
        self.last_error = String::new();
        PHI_STATUS_OK
    }

    pub fn last_error(&self) -> (r: &str)
        ensures
            r@ == self.last_error_text(),
    {
        self.last_error.as_str()
    }

    /// How the last error is written to a caller's buffer (its UTF-8 bytes).
    pub fn get_last_error(&self, buffer_present: bool, capacity: usize, required_present: bool) -> (w:
        BufferWrite)
        ensures
            w == buffer_write(
                crate::text::utf8_len(self.last_error_text()) as usize,
                buffer_present,
                capacity,
                required_present,
            ),
    {
        let n = self.last_error.as_str().as_bytes().len();
        write_bytes(n, buffer_present, capacity, required_present)
    }

    /// Registers a new render job; the context runs one job at a time.
    pub fn begin_job(&mut self, job_id: u64) -> (s: phi_status_t)
        ensures
            old(self).active() is Some ==> s == PHI_STATUS_BUSY && final(self).active()
                == old(self).active(),
            old(self).active() is None ==> s == PHI_STATUS_OK && final(self).active() == Some(
                job_id,
            ),
            final(self).roots() == old(self).roots(),
            final(self).last_error_text() == old(self).last_error_text(),
    {
        if self.active_job.is_some() {
            return PHI_STATUS_BUSY;
        }
        self.active_job = Some(job_id);
        PHI_STATUS_OK
    }

    /// Whether a job is running in this context.
    pub fn is_busy(&self) -> (r: bool)
        ensures
            r == self.active() is Some,
    {
        self.active_job.is_some()
    }

    /// Ends the job `job_id`; the end of a job that is not the running one changes nothing.
    pub fn end_job(&mut self, job_id: u64)
        ensures
            old(self).active() == Some(job_id) ==> final(self).active() is None,
            old(self).active() != Some(job_id) ==> final(self).active() == old(self).active(),
            final(self).roots() == old(self).roots(),
            final(self).last_error_text() == old(self).last_error_text(),
    {
        if self.active_job == Some(job_id) {
            self.active_job = None;
        }
    }
}

} // verus!
