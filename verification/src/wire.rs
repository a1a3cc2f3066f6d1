//! The closed enumerations a request can name, each with its wire token: the
//! exact text the API expects for it.

use vstd::prelude::*;

verus! {

/// A named section of a forecast response. Naming a block in a request's
/// `exclude` option leaves it out of the response.
#[derive(Clone, Copy, Debug, PartialEq, Eq, Structural, PartialOrd, Ord, Hash)]
pub enum Block {
    /// Current conditions.
    Currently,
    /// Day-by-day data.
    Daily,
    /// Miscellaneous metadata about the response.
    Flags,
    /// Hour-by-hour data.
    Hourly,
    /// Minute-by-minute data for the next hour.
    Minutely,
}

impl Block {
    /// The wire token of this block.
    pub open spec fn token(self) -> Seq<char> {
        match self {
            Block::Currently => "currently"@,
            Block::Daily => "daily"@,
            Block::Flags => "flags"@,
            Block::Hourly => "hourly"@,
            Block::Minutely => "minutely"@,
        }
    }

    /// Returns the exact string that stands for this value in a request.
    pub fn name(&self) -> (r: &'static str)
        ensures
            r@ == self.token(),
    {
        match *self {
            Block::Currently => "currently",
            Block::Daily => "daily",
            Block::Flags => "flags",
            Block::Hourly => "hourly",
            Block::Minutely => "minutely",
        }
    }
}
/// The language of the summaries in a response. The service answers in
/// English when none is named.
#[derive(Clone, Copy, Debug, PartialEq, Eq, Structural, PartialOrd, Ord, Hash)]
pub enum Language {
    /// Arabic.
    Ar,
    /// Azerbaijani.
    Az,
    /// Belarusian.
    Be,
    /// Bosnian.
    Bs,
    /// Czech.
    Cs,
    /// German.
    De,
    /// Greek.
    El,
    /// English.
    En,
    /// Spanish.
    Es,
    /// French.
    Fr,
    /// Croatian.
    Hr,
    /// Hungarian.
    Hu,
    /// Indonesian.
    Id,
    /// Italian.
    It,
    /// Icelandic.
    Is,
    /// Cornish.
    Kw,
    /// Norwegian Bokmal.
    Nb,
    /// Dutch.
    Nl,
    /// Polish.
    Pl,
    /// Portuguese.
    Pt,
    /// Russian.
    Ru,
    /// Slovak.
    Sk,
    /// Serbian.
    Sr,
    /// Swedish.
    Sv,
    /// Tetum.
    Tet,
    /// Turkish.
    Tr,
    /// Ukrainian.
    Uk,
    /// Pig Latin.
    XPigLatin,
    /// Simplified Chinese.
    Zh,
    /// Traditional Chinese.
    ZhTw,
}

impl Language {
    /// The wire token of this language.
    pub open spec fn token(self) -> Seq<char> {
        match self {
            Language::Ar => "ar"@,
            Language::Az => "az"@,
            Language::Be => "be"@,
            Language::Bs => "bs"@,
            Language::Cs => "cs"@,
            Language::De => "de"@,
            Language::El => "el"@,
            Language::En => "en"@,
            Language::Es => "es"@,
            Language::Fr => "fr"@,
            Language::Hr => "hr"@,
            Language::Hu => "hu"@,
            Language::Id => "id"@,
            Language::It => "it"@,
            Language::Is => "is"@,
            Language::Kw => "kw"@,
            Language::Nb => "nb"@,
            Language::Nl => "nl"@,
            Language::Pl => "pl"@,
            Language::Pt => "pt"@,
            Language::Ru => "ru"@,
            Language::Sk => "sk"@,
            Language::Sr => "sr"@,
            Language::Sv => "sv"@,
            Language::Tet => "tet"@,
            Language::Tr => "tr"@,
            Language::Uk => "uk"@,
            Language::XPigLatin => "x-pig-latin"@,
            Language::Zh => "zh"@,
            Language::ZhTw => "zh-tw"@,
        }
    }

    /// Returns the exact string that stands for this value in a request.
    pub fn name(&self) -> (r: &'static str)
        ensures
            r@ == self.token(),
    {
        match *self {
            Language::Ar => "ar",
            Language::Az => "az",
            Language::Be => "be",
            Language::Bs => "bs",
            Language::Cs => "cs",
            Language::De => "de",
            Language::El => "el",
            Language::En => "en",
            Language::Es => "es",
            Language::Fr => "fr",
            Language::Hr => "hr",
            Language::Hu => "hu",
            Language::Id => "id",
            Language::It => "it",
            Language::Is => "is",
            Language::Kw => "kw",
            Language::Nb => "nb",
            Language::Nl => "nl",
            Language::Pl => "pl",
            Language::Pt => "pt",
            Language::Ru => "ru",
            Language::Sk => "sk",
            Language::Sr => "sr",
            Language::Sv => "sv",
            Language::Tet => "tet",
            Language::Tr => "tr",
            Language::Uk => "uk",
            Language::XPigLatin => "x-pig-latin",
            Language::Zh => "zh",
            Language::ZhTw => "zh-tw",
        }
    }
}
/// The unit system of the measurements in a response.
#[derive(Clone, Copy, Debug, PartialEq, Eq, Structural, PartialOrd, Ord, Hash)]
pub enum Unit {
    /// Units chosen by the service from the location.
    Auto,
    /// SI units, with wind speed in kilometres per hour.
    Ca,
    /// SI units.
    Si,
    /// SI units, with distances in miles and wind speed in miles per hour.
    Uk2,
    /// Imperial units, which the service uses when none is named.
    Us,
}

impl Unit {
    /// The wire token of this unit system.
    pub open spec fn token(self) -> Seq<char> {
        match self {
            Unit::Auto => "auto"@,
            Unit::Ca => "ca"@,
            Unit::Si => "si"@,
            Unit::Uk2 => "uk2"@,
            Unit::Us => "us"@,
        }
    }

    /// Returns the exact string that stands for this value in a request.
    pub fn name(&self) -> (r: &'static str)
        ensures
            r@ == self.token(),
    {
        match *self {
            Unit::Auto => "auto",
            Unit::Ca => "ca",
            Unit::Si => "si",
            Unit::Uk2 => "uk2",
            Unit::Us => "us",
        }
    }
}
} // verus!
