//! Export presets for common platforms and uses.
use vstd::prelude::*;

verus! {

/// An export preset.
#[derive(Debug, Clone, Copy, PartialEq, Eq, Structural)]
pub enum ExportPreset {
    YouTube1080p,
    YouTube4K,
    YouTubeShorts,
    Vimeo,
    Twitter,
    Instagram,
    TikTok,
    ProRes422,
    ProRes4444,
    DNxHD,
    WebMP4,
    WebM,
    MobileHigh,
    MobileLow,
    Custom,
}

/// Every preset, in declaration order.
pub open spec fn all_presets() -> Seq<ExportPreset> {
    seq![
            ExportPreset::YouTube1080p,
            ExportPreset::YouTube4K,
            ExportPreset::YouTubeShorts,
            ExportPreset::Vimeo,
            ExportPreset::Twitter,
            ExportPreset::Instagram,
            ExportPreset::TikTok,
            ExportPreset::ProRes422,
            ExportPreset::ProRes4444,
            ExportPreset::DNxHD,
            ExportPreset::WebMP4,
            ExportPreset::WebM,
            ExportPreset::MobileHigh,
            ExportPreset::MobileLow,
            ExportPreset::Custom,
    ]
}

/// The named groups of presets; `Custom` belongs to none.
pub open spec fn preset_categories() -> Seq<(Seq<char>, Seq<ExportPreset>)> {
    seq![
            ("Video Platforms"@, seq![ExportPreset::YouTube1080p, ExportPreset::YouTube4K, ExportPreset::YouTubeShorts, ExportPreset::Vimeo]),
            ("Social Media"@, seq![ExportPreset::Twitter, ExportPreset::Instagram, ExportPreset::TikTok]),
            ("Professional"@, seq![ExportPreset::ProRes422, ExportPreset::ProRes4444, ExportPreset::DNxHD]),
            ("Web & Mobile"@, seq![ExportPreset::WebMP4, ExportPreset::WebM, ExportPreset::MobileHigh, ExportPreset::MobileLow]),
    ]
}

impl ExportPreset {
    pub open spec fn spec_display_name(&self) -> Seq<char> {
        match self {
            ExportPreset::YouTube1080p => "YouTube 1080p"@,
            ExportPreset::YouTube4K => "YouTube 4K"@,
            ExportPreset::YouTubeShorts => "YouTube Shorts"@,
            ExportPreset::Vimeo => "Vimeo"@,
            ExportPreset::Twitter => "Twitter/X"@,
            ExportPreset::Instagram => "Instagram"@,
            ExportPreset::TikTok => "TikTok"@,
            ExportPreset::ProRes422 => "ProRes 422"@,
            ExportPreset::ProRes4444 => "ProRes 4444"@,
            ExportPreset::DNxHD => "DNxHD"@,
            ExportPreset::WebMP4 => "Web MP4"@,
            ExportPreset::WebM => "WebM"@,
            ExportPreset::MobileHigh => "Mobile (High Quality)"@,
            ExportPreset::MobileLow => "Mobile (Low Quality)"@,
            ExportPreset::Custom => "Custom"@,
        }
    }

    pub open spec fn spec_description(&self) -> Seq<char> {
        match self {
            ExportPreset::YouTube1080p => "Optimized for YouTube 1080p uploads"@,
            ExportPreset::YouTube4K => "Optimized for YouTube 4K uploads"@,
            ExportPreset::YouTubeShorts => "Vertical format for YouTube Shorts (9:16)"@,
            ExportPreset::Vimeo => "High quality for Vimeo uploads"@,
            ExportPreset::Twitter => "Optimized for Twitter/X video posts"@,
            ExportPreset::Instagram => "Square format for Instagram posts"@,
            ExportPreset::TikTok => "Vertical format for TikTok"@,
            ExportPreset::ProRes422 => "Apple ProRes 422 for professional editing"@,
            ExportPreset::ProRes4444 => "Apple ProRes 4444 with alpha channel"@,
            ExportPreset::DNxHD => "Avid DNxHD for broadcast"@,
            ExportPreset::WebMP4 => "H.264 MP4 optimized for web streaming"@,
            ExportPreset::WebM => "VP9 WebM for modern browsers"@,
            ExportPreset::MobileHigh => "High quality for mobile devices"@,
            ExportPreset::MobileLow => "Low bandwidth for mobile networks"@,
            ExportPreset::Custom => "Custom export settings"@,
        }
    }

    pub open spec fn spec_file_extension(&self) -> Seq<char> {
        match self {
            ExportPreset::ProRes422 | ExportPreset::ProRes4444 | ExportPreset::DNxHD => "mov"@,
            ExportPreset::WebM => "webm"@,
            _ => "mp4"@,
        }
    }

    /// The name shown to users.
    pub fn display_name(&self) -> (r: &'static str)
        ensures
            r@ == self.spec_display_name(),
    {
        match self {
            ExportPreset::YouTube1080p => "YouTube 1080p",
            ExportPreset::YouTube4K => "YouTube 4K",
            ExportPreset::YouTubeShorts => "YouTube Shorts",
            ExportPreset::Vimeo => "Vimeo",
            ExportPreset::Twitter => "Twitter/X",
            ExportPreset::Instagram => "Instagram",
            ExportPreset::TikTok => "TikTok",
            ExportPreset::ProRes422 => "ProRes 422",
            ExportPreset::ProRes4444 => "ProRes 4444",
            ExportPreset::DNxHD => "DNxHD",
            ExportPreset::WebMP4 => "Web MP4",
            ExportPreset::WebM => "WebM",
            ExportPreset::MobileHigh => "Mobile (High Quality)",
            ExportPreset::MobileLow => "Mobile (Low Quality)",
            ExportPreset::Custom => "Custom",
        }
    }

    /// A one-line description.
    pub fn description(&self) -> (r: &'static str)
        ensures
            r@ == self.spec_description(),
    {
        match self {
            ExportPreset::YouTube1080p => "Optimized for YouTube 1080p uploads",
            ExportPreset::YouTube4K => "Optimized for YouTube 4K uploads",
            ExportPreset::YouTubeShorts => "Vertical format for YouTube Shorts (9:16)",
            ExportPreset::Vimeo => "High quality for Vimeo uploads",
            ExportPreset::Twitter => "Optimized for Twitter/X video posts",
            ExportPreset::Instagram => "Square format for Instagram posts",
            ExportPreset::TikTok => "Vertical format for TikTok",
            ExportPreset::ProRes422 => "Apple ProRes 422 for professional editing",
            ExportPreset::ProRes4444 => "Apple ProRes 4444 with alpha channel",
            ExportPreset::DNxHD => "Avid DNxHD for broadcast",
            ExportPreset::WebMP4 => "H.264 MP4 optimized for web streaming",
            ExportPreset::WebM => "VP9 WebM for modern browsers",
            ExportPreset::MobileHigh => "High quality for mobile devices",
            ExportPreset::MobileLow => "Low bandwidth for mobile networks",
            ExportPreset::Custom => "Custom export settings",
        }
    }

    /// The file extension the preset's container calls for.
    pub fn file_extension(&self) -> (r: &'static str)
        ensures
            r@ == self.spec_file_extension(),
    {
        match self {
            ExportPreset::ProRes422 | ExportPreset::ProRes4444 | ExportPreset::DNxHD => "mov",
            ExportPreset::WebM => "webm",
            _ => "mp4",
        }
    }

    /// Every preset.
    pub fn all() -> (r: Vec<Self>)
        ensures
            r@ == all_presets(),
    {
        let r = vec![
            ExportPreset::YouTube1080p,
            ExportPreset::YouTube4K,
            ExportPreset::YouTubeShorts,
            ExportPreset::Vimeo,
            ExportPreset::Twitter,
            ExportPreset::Instagram,
            ExportPreset::TikTok,
            ExportPreset::ProRes422,
            ExportPreset::ProRes4444,
            ExportPreset::DNxHD,
            ExportPreset::WebMP4,
            ExportPreset::WebM,
            ExportPreset::MobileHigh,
            ExportPreset::MobileLow,
            ExportPreset::Custom,
        ];
        assert(r@ =~= all_presets());
        r
    }

    /// The presets grouped by category.
    pub fn by_category() -> (r: Vec<(&'static str, Vec<Self>)>)
        ensures
            r@.len() == preset_categories().len(),
            forall|i: int|
                0 <= i < r@.len() ==> (#[trigger] r@[i]).0@ == preset_categories()[i].0 && r@[i].1@
                    == preset_categories()[i].1,
    {
        let r = vec![
            ("Video Platforms", vec![ExportPreset::YouTube1080p, ExportPreset::YouTube4K, ExportPreset::YouTubeShorts, ExportPreset::Vimeo]),
            ("Social Media", vec![ExportPreset::Twitter, ExportPreset::Instagram, ExportPreset::TikTok]),
            ("Professional", vec![ExportPreset::ProRes422, ExportPreset::ProRes4444, ExportPreset::DNxHD]),
            ("Web & Mobile", vec![ExportPreset::WebMP4, ExportPreset::WebM, ExportPreset::MobileHigh, ExportPreset::MobileLow]),
        ];
        proof {
            assert(r@[0].1@ =~= preset_categories()[0].1);
            assert(r@[1].1@ =~= preset_categories()[1].1);
            assert(r@[2].1@ =~= preset_categories()[2].1);
            assert(r@[3].1@ =~= preset_categories()[3].1);
        }
        r
    }
}

} // verus!
