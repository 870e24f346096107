use vstd::prelude::*;

verus! {

/// The file formats that an extension can name.
#[derive(Clone, Copy, Debug, PartialEq, Eq, Structural)]
pub enum Container {
    Png,
    Jpeg,
    Gif,
    WebP,
    Pnm,
    Tiff,
    Tga,
    Dds,
    Bmp,
    Ico,
    Hdr,
    OpenExr,
    Farbfeld,
    Avif,
    Qoi,
}

impl Container {
    /// Whether the encoder of the container reads nothing but the pixels it
    /// is given. The AVIF encoder cuts its tiles by the number of threads at
    /// hand, and the OpenEXR writer lays its blocks down in the order in
    /// which its threads finish: the files of these two are not fixed by
    /// the pixels.
    pub open spec fn is_reproducible(self) -> bool {
        !(self is Avif || self is OpenExr)
    }

    #[verifier::when_used_as_spec(is_reproducible)]
    pub fn reproducible(self) -> (r: bool)
        ensures
            r == self.is_reproducible(),
    {
        match self {
            Container::Avif => false,
            Container::OpenExr => false,
            _ => true,
        }
    }
}

} // verus!
