use vstd::prelude::*;

verus! {

/// The context of a tag: the kind of IFD it appears in.
#[derive(Debug, Clone, Copy, PartialEq, Eq, Structural)]
pub enum Context {
    /// The 0th, 1st and further chained IFDs (TIFF attributes).
    Tiff,
    /// The Exif IFD.
    Exif,
    /// The GPS IFD.
    Gps,
    /// The interoperability IFD.
    Interop,
}

/// A tag of a TIFF/Exif field: its context and its number.
#[derive(Debug, Clone, Copy, PartialEq, Eq, Structural)]
pub struct Tag(pub Context, pub u16);

#[allow(non_snake_case)]
impl Tag {
    pub fn NewSubfileType() -> (t: Tag)
        ensures
            t == Tag(Context::Tiff, 0x00fe),
    {
        Tag(Context::Tiff, 0x00fe)
    }

    pub fn ImageWidth() -> (t: Tag)
        ensures
            t == Tag(Context::Tiff, 0x0100),
    {
        Tag(Context::Tiff, 0x0100)
    }

    pub fn ImageLength() -> (t: Tag)
        ensures
            t == Tag(Context::Tiff, 0x0101),
    {
        Tag(Context::Tiff, 0x0101)
    }

    pub fn Compression() -> (t: Tag)
        ensures
            t == Tag(Context::Tiff, 0x0103),
    {
        Tag(Context::Tiff, 0x0103)
    }

    pub fn PhotometricInterpretation() -> (t: Tag)
        ensures
            t == Tag(Context::Tiff, 0x0106),
    {
        Tag(Context::Tiff, 0x0106)
    }

    pub fn ImageDescription() -> (t: Tag)
        ensures
            t == Tag(Context::Tiff, 0x010e),
    {
        Tag(Context::Tiff, 0x010e)
    }

    pub fn Make() -> (t: Tag)
        ensures
            t == Tag(Context::Tiff, 0x010f),
    {
        Tag(Context::Tiff, 0x010f)
    }

    pub fn Model() -> (t: Tag)
        ensures
            t == Tag(Context::Tiff, 0x0110),
    {
        Tag(Context::Tiff, 0x0110)
    }

    pub fn StripOffsets() -> (t: Tag)
        ensures
            t == Tag(Context::Tiff, 0x0111),
    {
        Tag(Context::Tiff, 0x0111)
    }

    pub fn Orientation() -> (t: Tag)
        ensures
            t == Tag(Context::Tiff, 0x0112),
    {
        Tag(Context::Tiff, 0x0112)
    }

    pub fn StripByteCounts() -> (t: Tag)
        ensures
            t == Tag(Context::Tiff, 0x0117),
    {
        Tag(Context::Tiff, 0x0117)
    }

    pub fn XResolution() -> (t: Tag)
        ensures
            t == Tag(Context::Tiff, 0x011a),
    {
        Tag(Context::Tiff, 0x011a)
    }

    pub fn YResolution() -> (t: Tag)
        ensures
            t == Tag(Context::Tiff, 0x011b),
    {
        Tag(Context::Tiff, 0x011b)
    }

    pub fn ResolutionUnit() -> (t: Tag)
        ensures
            t == Tag(Context::Tiff, 0x0128),
    {
        Tag(Context::Tiff, 0x0128)
    }

    pub fn Software() -> (t: Tag)
        ensures
            t == Tag(Context::Tiff, 0x0131),
    {
        Tag(Context::Tiff, 0x0131)
    }

    pub fn SubIFDs() -> (t: Tag)
        ensures
            t == Tag(Context::Tiff, 0x014a),
    {
        Tag(Context::Tiff, 0x014a)
    }

    pub fn JPEGInterchangeFormat() -> (t: Tag)
        ensures
            t == Tag(Context::Tiff, 0x0201),
    {
        Tag(Context::Tiff, 0x0201)
    }

    pub fn JPEGInterchangeFormatLength() -> (t: Tag)
        ensures
            t == Tag(Context::Tiff, 0x0202),
    {
        Tag(Context::Tiff, 0x0202)
    }

    pub fn ExifIFDPointer() -> (t: Tag)
        ensures
            t == Tag(Context::Tiff, 0x8769),
    {
        Tag(Context::Tiff, 0x8769)
    }

    pub fn GPSInfoIFDPointer() -> (t: Tag)
        ensures
            t == Tag(Context::Tiff, 0x8825),
    {
        Tag(Context::Tiff, 0x8825)
    }

    pub fn DefaultCropSize() -> (t: Tag)
        ensures
            t == Tag(Context::Tiff, 0xc620),
    {
        Tag(Context::Tiff, 0xc620)
    }

    pub fn DNGPrivateData() -> (t: Tag)
        ensures
            t == Tag(Context::Tiff, 0xc634),
    {
        Tag(Context::Tiff, 0xc634)
    }

    pub fn ExposureTime() -> (t: Tag)
        ensures
            t == Tag(Context::Exif, 0x829a),
    {
        Tag(Context::Exif, 0x829a)
    }

    pub fn FNumber() -> (t: Tag)
        ensures
            t == Tag(Context::Exif, 0x829d),
    {
        Tag(Context::Exif, 0x829d)
    }

    pub fn PhotographicSensitivity() -> (t: Tag)
        ensures
            t == Tag(Context::Exif, 0x8827),
    {
        Tag(Context::Exif, 0x8827)
    }

    pub fn ExifVersion() -> (t: Tag)
        ensures
            t == Tag(Context::Exif, 0x9000),
    {
        Tag(Context::Exif, 0x9000)
    }

    pub fn DateTimeOriginal() -> (t: Tag)
        ensures
            t == Tag(Context::Exif, 0x9003),
    {
        Tag(Context::Exif, 0x9003)
    }

    pub fn FocalLength() -> (t: Tag)
        ensures
            t == Tag(Context::Exif, 0x920a),
    {
        Tag(Context::Exif, 0x920a)
    }

    pub fn MakerNote() -> (t: Tag)
        ensures
            t == Tag(Context::Exif, 0x927c),
    {
        Tag(Context::Exif, 0x927c)
    }

    pub fn ColorSpace() -> (t: Tag)
        ensures
            t == Tag(Context::Exif, 0xa001),
    {
        Tag(Context::Exif, 0xa001)
    }

    pub fn InteropIFDPointer() -> (t: Tag)
        ensures
            t == Tag(Context::Exif, 0xa005),
    {
        Tag(Context::Exif, 0xa005)
    }

    pub fn BodySerialNumber() -> (t: Tag)
        ensures
            t == Tag(Context::Exif, 0xa431),
    {
        Tag(Context::Exif, 0xa431)
    }

    pub fn GPSVersionID() -> (t: Tag)
        ensures
            t == Tag(Context::Gps, 0x0000),
    {
        Tag(Context::Gps, 0x0000)
    }

    pub fn GPSLatitudeRef() -> (t: Tag)
        ensures
            t == Tag(Context::Gps, 0x0001),
    {
        Tag(Context::Gps, 0x0001)
    }

    pub fn GPSLatitude() -> (t: Tag)
        ensures
            t == Tag(Context::Gps, 0x0002),
    {
        Tag(Context::Gps, 0x0002)
    }

    pub fn GPSAltitudeRef() -> (t: Tag)
        ensures
            t == Tag(Context::Gps, 0x0005),
    {
        Tag(Context::Gps, 0x0005)
    }


    /// Returns the context of the tag.
    pub fn context(self) -> (r: Context)
        ensures
            r == self.0,
    {
        self.0
    }

    /// Returns the tag number.
    pub fn number(self) -> (r: u16)
        ensures
            r == self.1,
    {
        self.1
    }
}

} // verus!
