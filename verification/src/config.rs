use vstd::prelude::*;

use crate::canvas::frame_len;
use crate::decimal::{parse_u32, spec_parse_u32};
use crate::common::{
    DEFAULT_FOV_DEGREES, DEFAULT_LIGHT_SAMPLES, DEFAULT_MAX_BOUNCES, DEFAULT_SAMPLES_PER_PIXEL,
    DEFAULT_SCREEN_HEIGHT, DEFAULT_SCREEN_WIDTH,
};

verus! {

/// The flags of the command line that take a number.
#[derive(Clone, Copy, Debug, PartialEq, Eq, Structural)]
pub enum Flag {
    Width,
    Height,
    SamplesPerPixel,
    LightSamples,
    Bounces,
}

/// Why a configuration is refused.
#[derive(Clone, Copy, Debug, PartialEq, Eq, Structural)]
pub enum ConfigError {
    /// What was given with the flag is no number, or none that fits in 32
    /// bits.
    NotANumber(Flag),
    /// The image would have no columns.
    ZeroWidth,
    /// The image would have no rows.
    ZeroHeight,
    /// A pixel would be the mean of no samples.
    ZeroSamples,
    /// A light's share would be the mean of no samples.
    ZeroLightSamples,
    /// The frame of the image does not fit in memory.
    FrameTooLarge,
}

/// What a render is made with. A value of this type is a legal configuration:
/// the constructors refuse every other.
#[derive(Clone, Copy, Debug, PartialEq, Eq, Structural)]
pub struct Config {
    screen_width: u32,
    screen_height: u32,
    fov_degrees: u32,
    samples_per_pixel: u32,
    light_samples: u32,
    bounces: u32,
    debug: bool,
    high_dpi: bool,
    image_mode: bool,
    single_threaded: bool,
}

/// What a command line holds: for each flag that takes a number the text
/// given with it, if the flag is given, and the four switches.
#[derive(Clone, Debug)]
pub struct Flags {
    pub width: Option<String>,
    pub height: Option<String>,
    pub samples_per_pixel: Option<String>,
    pub light_samples: Option<String>,
    pub bounces: Option<String>,
    pub debug: bool,
    pub high_dpi: bool,
    pub image_mode: bool,
    pub single_threaded: bool,
}

/// The number that a flag stands for: the default where the flag is not
/// given, else the number that its text stands for, if it stands for one.
pub open spec fn flag_value(text: Option<String>, default: u32) -> Option<u32> {
    match text {
        None => Some(default),
        Some(text) => spec_parse_u32(text@),
    }
}

/// The first reason for which a command line is refused, if there is one. The
/// numbers are read in the order light samples, samples per pixel, bounces,
/// width, height, and tested once all of them are read.
pub open spec fn flags_fault(flags: Flags) -> Option<ConfigError> {
    if flag_value(flags.light_samples, DEFAULT_LIGHT_SAMPLES) is None {
        Some(ConfigError::NotANumber(Flag::LightSamples))
    } else if flag_value(flags.samples_per_pixel, DEFAULT_SAMPLES_PER_PIXEL) is None {
        Some(ConfigError::NotANumber(Flag::SamplesPerPixel))
    } else if flag_value(flags.bounces, DEFAULT_MAX_BOUNCES) is None {
        Some(ConfigError::NotANumber(Flag::Bounces))
    } else if flag_value(flags.width, DEFAULT_SCREEN_WIDTH) is None {
        Some(ConfigError::NotANumber(Flag::Width))
    } else if flag_value(flags.height, DEFAULT_SCREEN_HEIGHT) is None {
        Some(ConfigError::NotANumber(Flag::Height))
    } else {
        config_fault(
            flag_value(flags.width, DEFAULT_SCREEN_WIDTH)->0,
            flag_value(flags.height, DEFAULT_SCREEN_HEIGHT)->0,
            flag_value(flags.samples_per_pixel, DEFAULT_SAMPLES_PER_PIXEL)->0,
            flag_value(flags.light_samples, DEFAULT_LIGHT_SAMPLES)->0,
        )
    }
}

/// Reads the number of a flag.
fn number_of(text: &Option<String>, default: u32) -> (number: Option<u32>)
    ensures
        number == flag_value(*text, default),
{
    match text {
        None => Some(default),
        Some(text) => parse_u32(text.as_str()),
    }
}

/// The first reason for which the numbers of a configuration are refused, if
/// there is one: an image without columns, one without rows, no samples for
/// a pixel, no samples for a light, a frame too large for memory.
pub open spec fn config_fault(
    screen_width: u32,
    screen_height: u32,
    samples_per_pixel: u32,
    light_samples: u32,
) -> Option<ConfigError> {
    if screen_width == 0 {
        Some(ConfigError::ZeroWidth)
    } else if screen_height == 0 {
        Some(ConfigError::ZeroHeight)
    } else if samples_per_pixel == 0 {
        Some(ConfigError::ZeroSamples)
    } else if light_samples == 0 {
        Some(ConfigError::ZeroLightSamples)
    } else if frame_len(screen_width, screen_height) > usize::MAX {
        Some(ConfigError::FrameTooLarge)
    } else {
        None
    }
}

impl Config {
    pub closed spec fn spec_screen_width(&self) -> u32 {
        self.screen_width
    }

    pub closed spec fn spec_screen_height(&self) -> u32 {
        self.screen_height
    }

    pub closed spec fn spec_fov_degrees(&self) -> u32 {
        self.fov_degrees
    }

    pub closed spec fn spec_samples_per_pixel(&self) -> u32 {
        self.samples_per_pixel
    }

    pub closed spec fn spec_light_samples(&self) -> u32 {
        self.light_samples
    }

    pub closed spec fn spec_bounces(&self) -> u32 {
        self.bounces
    }

    pub closed spec fn spec_debug(&self) -> bool {
        self.debug
    }

    pub closed spec fn spec_high_dpi(&self) -> bool {
        self.high_dpi
    }

    pub closed spec fn spec_image_mode(&self) -> bool {
        self.image_mode
    }

    pub closed spec fn spec_single_threaded(&self) -> bool {
        self.single_threaded
    }

    /// The numbers of the configuration are legal.
    pub open spec fn wf(&self) -> bool {
        config_fault(
            self.spec_screen_width(),
            self.spec_screen_height(),
            self.spec_samples_per_pixel(),
            self.spec_light_samples(),
        ) is None
    }

    /// Two configurations that differ at most in the three render settings.
    pub open spec fn same_frame(&self, other: &Config) -> bool {
        &&& self.spec_screen_width() == other.spec_screen_width()
        &&& self.spec_screen_height() == other.spec_screen_height()
        &&& self.spec_fov_degrees() == other.spec_fov_degrees()
        &&& self.spec_debug() == other.spec_debug()
        &&& self.spec_high_dpi() == other.spec_high_dpi()
        &&& self.spec_image_mode() == other.spec_image_mode()
        &&& self.spec_single_threaded() == other.spec_single_threaded()
    }

    /// A 600 by 600 image, a field of view of 90 degrees, 4 samples per pixel,
    /// 4 samples per light, 50 bounces, and every switch off.
    pub fn new() -> (config: Config)
        ensures
            config.wf(),
            config.spec_screen_width() == DEFAULT_SCREEN_WIDTH,
            config.spec_screen_height() == DEFAULT_SCREEN_HEIGHT,
            config.spec_fov_degrees() == DEFAULT_FOV_DEGREES,
            config.spec_samples_per_pixel() == DEFAULT_SAMPLES_PER_PIXEL,
            config.spec_light_samples() == DEFAULT_LIGHT_SAMPLES,
            config.spec_bounces() == DEFAULT_MAX_BOUNCES,
            !config.spec_debug(),
            !config.spec_high_dpi(),
            !config.spec_image_mode(),
            !config.spec_single_threaded(),
    {
        Config {
            screen_width: DEFAULT_SCREEN_WIDTH,
            screen_height: DEFAULT_SCREEN_HEIGHT,
            fov_degrees: DEFAULT_FOV_DEGREES,
            samples_per_pixel: DEFAULT_SAMPLES_PER_PIXEL,
            light_samples: DEFAULT_LIGHT_SAMPLES,
            bounces: DEFAULT_MAX_BOUNCES,
            debug: false,
            high_dpi: false,
            image_mode: false,
            single_threaded: false,
        }
    }

    /// The configuration that a command line asks for, or the reason why the
    /// command line is refused. What it does not say is as in `Config::new`.
    pub fn from_flags(flags: &Flags) -> (config: Result<Config, ConfigError>)
        ensures
            match flags_fault(*flags) {
                Some(fault) => config == Err::<Config, ConfigError>(fault),
                None => {
                    &&& config matches Ok(c)
                    &&& c.wf()
                    &&& Some(c.spec_screen_width()) == flag_value(
                        flags.width,
                        DEFAULT_SCREEN_WIDTH,
                    )
                    &&& Some(c.spec_screen_height()) == flag_value(
                        flags.height,
                        DEFAULT_SCREEN_HEIGHT,
                    )
                    &&& Some(c.spec_samples_per_pixel()) == flag_value(
                        flags.samples_per_pixel,
                        DEFAULT_SAMPLES_PER_PIXEL,
                    )
                    &&& Some(c.spec_light_samples()) == flag_value(
                        flags.light_samples,
                        DEFAULT_LIGHT_SAMPLES,
                    )
                    &&& Some(c.spec_bounces()) == flag_value(flags.bounces, DEFAULT_MAX_BOUNCES)
                    &&& c.spec_fov_degrees() == DEFAULT_FOV_DEGREES
                    &&& c.spec_debug() == flags.debug
                    &&& c.spec_high_dpi() == flags.high_dpi
                    &&& c.spec_image_mode() == flags.image_mode
                    &&& c.spec_single_threaded() == flags.single_threaded
                },
            },
    {
        let light_samples = match number_of(&flags.light_samples, DEFAULT_LIGHT_SAMPLES) {
            Some(n) => n,
            None => {
                return Err(ConfigError::NotANumber(Flag::LightSamples));
            },
        };
        let samples_per_pixel = match number_of(
            &flags.samples_per_pixel,
            DEFAULT_SAMPLES_PER_PIXEL,
        ) {
            Some(n) => n,
            None => {
                return Err(ConfigError::NotANumber(Flag::SamplesPerPixel));
            },
        };
        let bounces = match number_of(&flags.bounces, DEFAULT_MAX_BOUNCES) {
            Some(n) => n,
            None => {
                return Err(ConfigError::NotANumber(Flag::Bounces));
            },
        };
        let screen_width = match number_of(&flags.width, DEFAULT_SCREEN_WIDTH) {
            Some(n) => n,
            None => {
                return Err(ConfigError::NotANumber(Flag::Width));
            },
        };
        let screen_height = match number_of(&flags.height, DEFAULT_SCREEN_HEIGHT) {
            Some(n) => n,
            None => {
                return Err(ConfigError::NotANumber(Flag::Height));
            },
        };
        match check_numbers(screen_width, screen_height, samples_per_pixel, light_samples) {
            Some(fault) => Err(fault),
            None => Ok(
                Config {
                    screen_width,
                    screen_height,
                    fov_degrees: DEFAULT_FOV_DEGREES,
                    samples_per_pixel,
                    light_samples,
                    bounces,
                    debug: flags.debug,
                    high_dpi: flags.high_dpi,
                    image_mode: flags.image_mode,
                    single_threaded: flags.single_threaded,
                },
            ),
        }
    }

    /// The configuration with another image size, or the reason why that size
    /// is refused.
    pub fn with_size(self, screen_width: u32, screen_height: u32) -> (sized: Result<
        Config,
        ConfigError,
    >)
        ensures
            match config_fault(
                screen_width,
                screen_height,
                self.spec_samples_per_pixel(),
                self.spec_light_samples(),
            ) {
                Some(fault) => sized == Err::<Config, ConfigError>(fault),
                None => sized matches Ok(c) && c.spec_screen_width() == screen_width
                    && c.spec_screen_height() == screen_height && c.spec_fov_degrees()
                    == self.spec_fov_degrees() && c.same_settings(&self) && c.same_switches(
                    &self,
                ),
            },
    {
        match check_numbers(
            screen_width,
            screen_height,
            self.samples_per_pixel,
            self.light_samples,
        ) {
            Some(fault) => Err(fault),
            None => Ok(Config { screen_width, screen_height, ..self }),
        }
    }

    /// The configuration with other render settings, or the reason why they
    /// are refused.
    pub fn with_render_settings(
        self,
        samples_per_pixel: u32,
        light_samples: u32,
        bounces: u32,
    ) -> (set: Result<Config, ConfigError>)
        ensures
            match config_fault(
                self.spec_screen_width(),
                self.spec_screen_height(),
                samples_per_pixel,
                light_samples,
            ) {
                Some(fault) => set == Err::<Config, ConfigError>(fault),
                None => set matches Ok(c) && c.spec_samples_per_pixel() == samples_per_pixel
                    && c.spec_light_samples() == light_samples && c.spec_bounces() == bounces
                    && c.same_frame(&self),
            },
    {
        match check_numbers(
            self.screen_width,
            self.screen_height,
            samples_per_pixel,
            light_samples,
        ) {
            Some(fault) => Err(fault),
            None => Ok(Config { samples_per_pixel, light_samples, bounces, ..self }),
        }
    }

    /// The configuration with other switches. No switch makes a configuration
    /// illegal.
    pub fn with_switches(
        self,
        debug: bool,
        high_dpi: bool,
        image_mode: bool,
        single_threaded: bool,
    ) -> (switched: Config)
        ensures
            switched.spec_debug() == debug,
            switched.spec_high_dpi() == high_dpi,
            switched.spec_image_mode() == image_mode,
            switched.spec_single_threaded() == single_threaded,
            switched.spec_screen_width() == self.spec_screen_width(),
            switched.spec_screen_height() == self.spec_screen_height(),
            switched.spec_fov_degrees() == self.spec_fov_degrees(),
            switched.same_settings(&self),
            self.wf() ==> switched.wf(),
    {
        Config { debug, high_dpi, image_mode, single_threaded, ..self }
    }

    /// Two configurations with the same three render settings.
    pub open spec fn same_settings(&self, other: &Config) -> bool {
        &&& self.spec_samples_per_pixel() == other.spec_samples_per_pixel()
        &&& self.spec_light_samples() == other.spec_light_samples()
        &&& self.spec_bounces() == other.spec_bounces()
    }

    /// Two configurations with the same four switches.
    pub open spec fn same_switches(&self, other: &Config) -> bool {
        &&& self.spec_debug() == other.spec_debug()
        &&& self.spec_high_dpi() == other.spec_high_dpi()
        &&& self.spec_image_mode() == other.spec_image_mode()
        &&& self.spec_single_threaded() == other.spec_single_threaded()
    }

    #[verifier::when_used_as_spec(spec_screen_width)]
    pub fn screen_width(&self) -> (width: u32)
        ensures
            width == self.spec_screen_width(),
    {
        self.screen_width
    }

    #[verifier::when_used_as_spec(spec_screen_height)]
    pub fn screen_height(&self) -> (height: u32)
        ensures
            height == self.spec_screen_height(),
    {
        self.screen_height
    }

    #[verifier::when_used_as_spec(spec_fov_degrees)]
    pub fn fov_degrees(&self) -> (degrees: u32)
        ensures
            degrees == self.spec_fov_degrees(),
    {
        self.fov_degrees
    }

    #[verifier::when_used_as_spec(spec_samples_per_pixel)]
    pub fn samples_per_pixel(&self) -> (samples: u32)
        ensures
            samples == self.spec_samples_per_pixel(),
    {
        self.samples_per_pixel
    }

    #[verifier::when_used_as_spec(spec_light_samples)]
    pub fn light_samples(&self) -> (samples: u32)
        ensures
            samples == self.spec_light_samples(),
    {
        self.light_samples
    }

    #[verifier::when_used_as_spec(spec_bounces)]
    pub fn bounces(&self) -> (bounces: u32)
        ensures
            bounces == self.spec_bounces(),
    {
        self.bounces
    }

    #[verifier::when_used_as_spec(spec_debug)]
    pub fn debug(&self) -> (on: bool)
        ensures
            on == self.spec_debug(),
    {
        self.debug
    }

    #[verifier::when_used_as_spec(spec_high_dpi)]
    pub fn high_dpi(&self) -> (on: bool)
        ensures
            on == self.spec_high_dpi(),
    {
        self.high_dpi
    }

    #[verifier::when_used_as_spec(spec_image_mode)]
    pub fn image_mode(&self) -> (on: bool)
        ensures
            on == self.spec_image_mode(),
    {
        self.image_mode
    }

    #[verifier::when_used_as_spec(spec_single_threaded)]
    pub fn single_threaded(&self) -> (on: bool)
        ensures
            on == self.spec_single_threaded(),
    {
        self.single_threaded
    }

    /// By how much the frame is larger than the window: 2 on a high-DPI
    /// display, else 1.
    pub open spec fn spec_window_divider(&self) -> u32 {
        if self.spec_high_dpi() {
            2
        } else {
            1
        }
    }

    #[verifier::when_used_as_spec(spec_window_divider)]
    pub fn window_divider(&self) -> (divider: u32)
        ensures
            divider == self.spec_window_divider(),
    {
        if self.high_dpi {
            2
        } else {
            1
        }
    }

    /// Width and height of the window that shows the frame.
    pub fn window_size(&self) -> (size: (u32, u32))
        ensures
            size.0 == self.spec_screen_width() / self.spec_window_divider(),
            size.1 == self.spec_screen_height() / self.spec_window_divider(),
    {
        let divider: u32 = self.window_divider();
        (self.screen_width / divider, self.screen_height / divider)
    }

    /// The pixel of the frame under a point of the window, or `None` where the
    /// point lies outside the frame.
    pub fn frame_pixel(&self, window_x: u32, window_y: u32) -> (pixel: Option<(u32, u32)>)
        ensures
            pixel == if window_x * self.spec_window_divider() < self.spec_screen_width()
                && window_y * self.spec_window_divider() < self.spec_screen_height() {
                Some(
                    (
                        (window_x * self.spec_window_divider()) as u32,
                        (window_y * self.spec_window_divider()) as u32,
                    ),
                )
            } else {
                None
            },
    {
        let divider: u64 = if self.high_dpi {
            2
        } else {
            1
        };
        let x: u64 = window_x as u64 * divider;
        let y: u64 = window_y as u64 * divider;
        if x < self.screen_width as u64 && y < self.screen_height as u64 {
            Some((x as u32, y as u32))
        } else {
            None
        }
    }
}

/// Tests the numbers of a configuration.
fn check_numbers(
    screen_width: u32,
    screen_height: u32,
    samples_per_pixel: u32,
    light_samples: u32,
) -> (fault: Option<ConfigError>)
    ensures
        fault == config_fault(screen_width, screen_height, samples_per_pixel, light_samples),
{
    if screen_width == 0 {
        return Some(ConfigError::ZeroWidth);
    }
    if screen_height == 0 {
        return Some(ConfigError::ZeroHeight);
    }
    if samples_per_pixel == 0 {
        return Some(ConfigError::ZeroSamples);
    }
    if light_samples == 0 {
        return Some(ConfigError::ZeroLightSamples);
    }
    let fits = match (screen_width as usize).checked_mul(screen_height as usize) {
        Some(pixels) => pixels.checked_mul(4).is_some(),
        None => {
            assert(screen_width * screen_height * 4 >= screen_width * screen_height)
                by (nonlinear_arith);
            false
        },
    };
    if fits {
        None
    } else {
        Some(ConfigError::FrameTooLarge)
    }
}

} // verus!
