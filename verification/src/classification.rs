//! Size classes of stars: the table of radii and rarity thresholds, the
//! weighted classification of a random draw, and the display colour that
//! belongs to a radius.

use vstd::prelude::*;

verus! {

/// Exclusive upper bound of a classification draw.
pub const CLASS_DRAW_CEILING: i64 = 1_000_000;

/// Radius given to a star when no enabled class takes its draw.
pub const FALLBACK_RADIUS: u32 = 70;

/// Margin added to a radius before it is compared with the class radii, so
/// that a star of exactly a class radius is coloured as that class.
pub const COLOR_MARGIN: u32 = 10;

/// The seven size classes, rarest and largest first.
#[derive(Clone, Copy, PartialEq, Eq, Debug, Structural)]
pub enum StarClass {
    O,
    B,
    A,
    F,
    G,
    K,
    M,
}

/// Which size classes the generator may hand out.
#[derive(Clone, Copy, PartialEq, Eq, Debug, Structural)]
pub struct EnabledClasses {
    pub o_class: bool,
    pub b_class: bool,
    pub a_class: bool,
    pub f_class: bool,
    pub g_class: bool,
    pub k_class: bool,
    pub m_class: bool,
}

impl EnabledClasses {
    /// Whether `class` is switched on.
    pub open spec fn allows(self, class: StarClass) -> bool {
        match class {
            StarClass::O => self.o_class,
            StarClass::B => self.b_class,
            StarClass::A => self.a_class,
            StarClass::F => self.f_class,
            StarClass::G => self.g_class,
            StarClass::K => self.k_class,
            StarClass::M => self.m_class,
        }
    }

    /// The same set with `class` switched the other way.
    pub open spec fn flipped(self, class: StarClass) -> EnabledClasses {
        match class {
            StarClass::O => EnabledClasses { o_class: !self.o_class, ..self },
            StarClass::B => EnabledClasses { b_class: !self.b_class, ..self },
            StarClass::A => EnabledClasses { a_class: !self.a_class, ..self },
            StarClass::F => EnabledClasses { f_class: !self.f_class, ..self },
            StarClass::G => EnabledClasses { g_class: !self.g_class, ..self },
            StarClass::K => EnabledClasses { k_class: !self.k_class, ..self },
            StarClass::M => EnabledClasses { m_class: !self.m_class, ..self },
        }
    }

    /// Every class switched on.
    pub open spec fn everything() -> EnabledClasses {
        EnabledClasses {
            o_class: true,
            b_class: true,
            a_class: true,
            f_class: true,
            g_class: true,
            k_class: true,
            m_class: true,
        }
    }

    /// A set with every class switched on.
    pub fn all() -> (enabled: EnabledClasses)
        ensures
            enabled == Self::everything(),
    {
        EnabledClasses {
            o_class: true,
            b_class: true,
            a_class: true,
            f_class: true,
            g_class: true,
            k_class: true,
            m_class: true,
        }
    }

    /// Tests whether `class` is switched on.
    pub fn is_enabled(&self, class: StarClass) -> (on: bool)
        ensures
            on == self.allows(class),
    {
        match class {
            StarClass::O => self.o_class,
            StarClass::B => self.b_class,
            StarClass::A => self.a_class,
            StarClass::F => self.f_class,
            StarClass::G => self.g_class,
            StarClass::K => self.k_class,
            StarClass::M => self.m_class,
        }
    }

    /// Switches `class` the other way and leaves the other six alone.
    pub fn toggle(&mut self, class: StarClass)
        ensures
            *final(self) == old(self).flipped(class),
    {
        match class {
            StarClass::O => {
                self.o_class = !self.o_class;
            },
            StarClass::B => {
                self.b_class = !self.b_class;
            },
            StarClass::A => {
                self.a_class = !self.a_class;
            },
            StarClass::F => {
                self.f_class = !self.f_class;
            },
            StarClass::G => {
                self.g_class = !self.g_class;
            },
            StarClass::K => {
                self.k_class = !self.k_class;
            },
            StarClass::M => {
                self.m_class = !self.m_class;
            },
        }
    }
}

/// Radius and rarity threshold of each size class.
///
/// A threshold is the largest draw that still belongs to the class or to a
/// rarer one, so the thresholds cut the draw space into one band per class.
/// The threshold of the commonest class closes the last band and is never
/// compared with a draw.
#[derive(Clone, Copy, PartialEq, Eq, Debug, Structural)]
pub struct StarData {
    pub o_class_radius: u32,
    pub b_class_radius: u32,
    pub a_class_radius: u32,
    pub f_class_radius: u32,
    pub g_class_radius: u32,
    pub k_class_radius: u32,
    pub m_class_radius: u32,
    pub o_class_rarity: i64,
    pub b_class_rarity: i64,
    pub a_class_rarity: i64,
    pub f_class_rarity: i64,
    pub g_class_rarity: i64,
    pub k_class_rarity: i64,
    pub m_class_rarity: i64,
}

impl StarData {
    /// The table of the seven spectral classes.
    pub open spec fn standard() -> StarData {
        StarData {
            o_class_radius: 16000,
            b_class_radius: 5000,
            a_class_radius: 2000,
            f_class_radius: 1500,
            g_class_radius: 1000,
            k_class_radius: 500,
            m_class_radius: 100,
            o_class_rarity: 30,
            b_class_rarity: 2400,
            a_class_rarity: 9000,
            f_class_rarity: 30000,
            g_class_rarity: 70000,
            k_class_rarity: 120000,
            m_class_rarity: 760000,
        }
    }

    /// Radius of `class`.
    pub open spec fn radius_of(self, class: StarClass) -> u32 {
        match class {
            StarClass::O => self.o_class_radius,
            StarClass::B => self.b_class_radius,
            StarClass::A => self.a_class_radius,
            StarClass::F => self.f_class_radius,
            StarClass::G => self.g_class_radius,
            StarClass::K => self.k_class_radius,
            StarClass::M => self.m_class_radius,
        }
    }

    /// Rarity threshold of `class`.
    pub open spec fn rarity_of(self, class: StarClass) -> i64 {
        match class {
            StarClass::O => self.o_class_rarity,
            StarClass::B => self.b_class_rarity,
            StarClass::A => self.a_class_rarity,
            StarClass::F => self.f_class_rarity,
            StarClass::G => self.g_class_rarity,
            StarClass::K => self.k_class_rarity,
            StarClass::M => self.m_class_rarity,
        }
    }

    /// The thresholds rise from the rarest class to the commonest and none
    /// is negative: each class owns one band of the draw space.
    pub open spec fn banded(self) -> bool {
        0 <= self.o_class_rarity <= self.b_class_rarity <= self.a_class_rarity
            <= self.f_class_rarity <= self.g_class_rarity <= self.k_class_rarity
            <= self.m_class_rarity
    }

    /// Every class has a positive radius.
    pub open spec fn sized(self) -> bool {
        &&& self.o_class_radius > 0
        &&& self.b_class_radius > 0
        &&& self.a_class_radius > 0
        &&& self.f_class_radius > 0
        &&& self.g_class_radius > 0
        &&& self.k_class_radius > 0
        &&& self.m_class_radius > 0
    }

    /// The class that takes `draw`, if an enabled one does.
    ///
    /// The scan runs from the commonest class to the rarest. A class takes
    /// the draw when it is enabled and the draw lies above the threshold of
    /// the next rarer class; the rarest class takes whatever reaches it.
    pub open spec fn class_of(self, draw: int, enabled: EnabledClasses) -> Option<StarClass> {
        if draw > self.k_class_rarity && enabled.m_class {
            Some(StarClass::M)
        } else if draw > self.g_class_rarity && enabled.k_class {
            Some(StarClass::K)
        } else if draw > self.f_class_rarity && enabled.g_class {
            Some(StarClass::G)
        } else if draw > self.a_class_rarity && enabled.f_class {
            Some(StarClass::F)
        } else if draw > self.b_class_rarity && enabled.a_class {
            Some(StarClass::A)
        } else if draw > self.o_class_rarity && enabled.b_class {
            Some(StarClass::B)
        } else if enabled.o_class {
            Some(StarClass::O)
        } else {
            None
        }
    }

    /// The radius that `draw` resolves to: that of its class, or the
    /// fallback radius when no enabled class takes the draw.
    pub open spec fn resolved_radius(self, draw: int, enabled: EnabledClasses) -> u32 {
        match self.class_of(draw, enabled) {
            Some(class) => self.radius_of(class),
            None => FALLBACK_RADIUS,
        }
    }

    /// The band of the draw space that `class` owns when every class is
    /// enabled.
    pub open spec fn in_band(self, draw: int, class: StarClass) -> bool {
        match class {
            StarClass::O => draw <= self.o_class_rarity,
            StarClass::B => self.o_class_rarity < draw <= self.b_class_rarity,
            StarClass::A => self.b_class_rarity < draw <= self.a_class_rarity,
            StarClass::F => self.a_class_rarity < draw <= self.f_class_rarity,
            StarClass::G => self.f_class_rarity < draw <= self.g_class_rarity,
            StarClass::K => self.g_class_rarity < draw <= self.k_class_rarity,
            StarClass::M => self.k_class_rarity < draw,
        }
    }

    /// How far down the table `class` stands: 0 for the rarest class, 6 for
    /// the commonest.
    pub open spec fn rank(class: StarClass) -> int {
        match class {
            StarClass::O => 0,
            StarClass::B => 1,
            StarClass::A => 2,
            StarClass::F => 3,
            StarClass::G => 4,
            StarClass::K => 5,
            StarClass::M => 6,
        }
    }

    /// The display colour for a probe radius: the probe is compared with
    /// the class radii from the second largest down, and the first one it
    /// exceeds decides.
    pub open spec fn tint_of(self, probe: int) -> StarColor {
        if probe > self.b_class_radius {
            StarColor { red: 5, green: 5, blue: 250 }
        } else if probe > self.a_class_radius {
            StarColor { red: 10, green: 10, blue: 240 }
        } else if probe > self.f_class_radius {
            StarColor { red: 250, green: 250, blue: 250 }
        } else if probe > self.g_class_radius {
            StarColor { red: 200, green: 100, blue: 100 }
        } else if probe > self.k_class_radius {
            StarColor { red: 254, green: 170, blue: 52 }
        } else {
            StarColor { red: 30, green: 0, blue: 0 }
        }
    }

    /// The display colour of a star of `radius`: the tint of the radius
    /// raised by the colour margin.
    pub open spec fn color_of(self, radius: int) -> StarColor {
        self.tint_of(radius + COLOR_MARGIN)
    }

    /// Looks up the radius of `class`.
    pub fn radius(&self, class: StarClass) -> (r: u32)
        ensures
            r == self.radius_of(class),
    {
        match class {
            StarClass::O => self.o_class_radius,
            StarClass::B => self.b_class_radius,
            StarClass::A => self.a_class_radius,
            StarClass::F => self.f_class_radius,
            StarClass::G => self.g_class_radius,
            StarClass::K => self.k_class_radius,
            StarClass::M => self.m_class_radius,
        }
    }

    /// Looks up the rarity threshold of `class`.
    pub fn rarity(&self, class: StarClass) -> (t: i64)
        ensures
            t == self.rarity_of(class),
    {
        match class {
            StarClass::O => self.o_class_rarity,
            StarClass::B => self.b_class_rarity,
            StarClass::A => self.a_class_rarity,
            StarClass::F => self.f_class_rarity,
            StarClass::G => self.g_class_rarity,
            StarClass::K => self.k_class_rarity,
            StarClass::M => self.m_class_rarity,
        }
    }

    /// Finds the class that takes `draw` among the enabled ones.
    pub fn classify(&self, draw: i64, enabled: &EnabledClasses) -> (class: Option<StarClass>)
        ensures
            class == self.class_of(draw as int, *enabled),
    {
        if draw > self.k_class_rarity && enabled.m_class {
            Some(StarClass::M)
        } else if draw > self.g_class_rarity && enabled.k_class {
            Some(StarClass::K)
        } else if draw > self.f_class_rarity && enabled.g_class {
            Some(StarClass::G)
        } else if draw > self.a_class_rarity && enabled.f_class {
            Some(StarClass::F)
        } else if draw > self.b_class_rarity && enabled.a_class {
            Some(StarClass::A)
        } else if draw > self.o_class_rarity && enabled.b_class {
            Some(StarClass::B)
        } else if enabled.o_class {
            Some(StarClass::O)
        } else {
            None
        }
    }

    /// Resolves `draw` to the radius of its class, or to the fallback radius
    /// when no enabled class takes it.
    pub fn spawning_radius(&self, draw: i64, enabled: &EnabledClasses) -> (r: u32)
        ensures
            r == self.resolved_radius(draw as int, *enabled),
    {
        match self.classify(draw, enabled) {
            Some(class) => self.radius(class),
            None => FALLBACK_RADIUS,
        }
    }
}

impl Default for StarData {
    /// The table of the seven spectral classes.
    fn default() -> (table: StarData)
        ensures
            table == StarData::standard(),
    {
        StarData {
            o_class_radius: 16000,
            b_class_radius: 5000,
            a_class_radius: 2000,
            f_class_radius: 1500,
            g_class_radius: 1000,
            k_class_radius: 500,
            m_class_radius: 100,
            o_class_rarity: 30,
            b_class_rarity: 2400,
            a_class_rarity: 9000,
            f_class_rarity: 30000,
            g_class_rarity: 70000,
            k_class_rarity: 120000,
            m_class_rarity: 760000,
        }
    }
}

/// A display colour in eight-bit channels.
#[derive(Clone, Copy, PartialEq, Eq, Debug, Structural)]
pub struct StarColor {
    pub red: u8,
    pub green: u8,
    pub blue: u8,
}

/// Picks the display colour for a probe radius.
pub fn tint(probe: u64, star_data: &StarData) -> (color: StarColor)
    ensures
        color == star_data.tint_of(probe as int),
{
    if probe > star_data.b_class_radius as u64 {
        StarColor { red: 5, green: 5, blue: 250 }
    } else if probe > star_data.a_class_radius as u64 {
        StarColor { red: 10, green: 10, blue: 240 }
    } else if probe > star_data.f_class_radius as u64 {
        StarColor { red: 250, green: 250, blue: 250 }
    } else if probe > star_data.g_class_radius as u64 {
        StarColor { red: 200, green: 100, blue: 100 }
    } else if probe > star_data.k_class_radius as u64 {
        StarColor { red: 254, green: 170, blue: 52 }
    } else {
        StarColor { red: 30, green: 0, blue: 0 }
    }
}

/// Picks the display colour of a star of `radius`.
pub fn star_color_from_radius(radius: u32, star_data: &StarData) -> (color: StarColor)
    ensures
        color == star_data.color_of(radius as int),
{
    tint(radius as u64 + COLOR_MARGIN as u64, star_data)
}

/// With every class enabled and rising thresholds, a draw resolves to a
/// class exactly when it lies in the band of that class, and some class
/// always takes it.
pub proof fn lemma_class_bands(table: StarData, draw: int, class: StarClass)
    requires
        table.banded(),
    ensures
        table.class_of(draw, EnabledClasses::everything()) == Some(class) <==> table.in_band(
            draw,
            class,
        ),
        table.class_of(draw, EnabledClasses::everything()) is Some,
{
}

/// The class that takes a draw is enabled, and it is never commoner than
/// the band in which the draw lies: switching a class off hands its draws
/// to the next enabled rarer class and leaves every other band as it was.
pub proof fn lemma_class_is_enabled_and_no_commoner(
    table: StarData,
    draw: int,
    enabled: EnabledClasses,
    band: StarClass,
)
    requires
        table.banded(),
        table.in_band(draw, band),
    ensures
        table.class_of(draw, enabled) matches Some(class) ==> enabled.allows(class)
            && StarData::rank(class) <= StarData::rank(band),
        enabled.allows(band) ==> table.class_of(draw, enabled) == Some(band),
        table.class_of(draw, enabled) is None <==> forall|c: StarClass|
            StarData::rank(c) <= StarData::rank(band) ==> !enabled.allows(c),
{
    if table.class_of(draw, enabled) is None {
        assert forall|c: StarClass| StarData::rank(c) <= StarData::rank(band) implies !enabled.allows(
            c,
        ) by {}
    } else {
        let class = table.class_of(draw, enabled).unwrap();
        assert(enabled.allows(class));
        assert(StarData::rank(class) <= StarData::rank(band));
    }
}

/// A resolved radius is the fallback radius or the radius of an enabled
/// class, so it is positive whenever every class radius is.
pub proof fn lemma_resolved_radius_positive(table: StarData, draw: int, enabled: EnabledClasses)
    requires
        table.sized(),
    ensures
        table.resolved_radius(draw, enabled) > 0,
{
}

} // verus!
