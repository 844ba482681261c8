//! The catalog of documented VCP codes: fixed data, consulted for names and
//! descriptions only, never for control.

use vstd::prelude::*;

verus! {

/// Name and description of one documented VCP code.
#[derive(Debug, Clone, Copy, PartialEq, Eq)]
pub struct VcpFeatureInfo {
    pub code: u8,
    pub name: &'static str,
    pub description: &'static str,
}

/// The catalog: what is documented of a code, or `None` for a code that the
/// command set leaves undocumented or reserves for vendors.
pub open spec fn catalog_entry(code: u8) -> Option<VcpFeatureInfo> {
    match code {
        0x00 => Some(
            VcpFeatureInfo {
                code,
                name: "Code Page",
                description: "Returns the Code Page ID number Byte SL.",
            },
        ),
        0x01 => Some(
            VcpFeatureInfo {
                code,
                name: "Degauss",
                description: "Causes a CRT display to perform a degauss cycle.",
            },
        ),
        0x02 => Some(
            VcpFeatureInfo {
                code,
                name: "New Control Value",
                description: "Indicates that a displays MCCS VCP Code register value has changed.",
            },
        ),
        0x03 => Some(
            VcpFeatureInfo {
                code,
                name: "Soft Controls",
                description: "Allows applications running on the host to use control buttons on the display.",
            },
        ),
        0x04 => Some(
            VcpFeatureInfo {
                code,
                name: "Restore Factory Defaults",
                description: "Restore all factory presets including luminance / contrast, geometry, color and TV defaults.",
            },
        ),
        0x05 => Some(
            VcpFeatureInfo {
                code,
                name: "Restore Factory Luminance / Contrast Defaults",
                description: "Restores factory defaults for luminance and contrast adjustments.",
            },
        ),
        0x06 => Some(
            VcpFeatureInfo {
                code,
                name: "Restore Factory Geometry Defaults",
                description: "Restore factory defaults for geometry adjustments.",
            },
        ),
        0x08 => Some(
            VcpFeatureInfo {
                code,
                name: "Restore Factory Color Defaults",
                description: "Restore factory defaults for color settings.",
            },
        ),
        0x0A => Some(
            VcpFeatureInfo {
                code,
                name: "Restore Factory TV Defaults",
                description: "Restore factory defaults for TV functions.",
            },
        ),
        0x0B => Some(
            VcpFeatureInfo {
                code,
                name: "User Color Temperature Increment",
                description: "Sets the minimum increment in which the display can adjust the color temperature.",
            },
        ),
        0x0C => Some(
            VcpFeatureInfo {
                code,
                name: "User Color Temperature",
                description: "Multiplier of the value set in 0x0B",
            },
        ),
        0x0E => Some(
            VcpFeatureInfo {
                code,
                name: "Clock",
                description: "Video sampling clock frequency",
            },
        ),
        0x10 => Some(
            VcpFeatureInfo {
                code,
                name: "Luminance",
                description: "Luminance of the image (Brightness control).",
            },
        ),
        0x11 => Some(
            VcpFeatureInfo {
                code,
                name: "Flesh Tone Enhancement",
                description: "This control allows for selection of contrast enhancement algorithms using a bitmask.",
            },
        ),
        0x12 => Some(
            VcpFeatureInfo {
                code,
                name: "Contrast",
                description: "Contrast of the image.",
            },
        ),
        0x13 => Some(
            VcpFeatureInfo {
                code,
                name: "Backlight Control",
                description: "This VCP code has been deprecated.",
            },
        ),
        0x14 => Some(
            VcpFeatureInfo {
                code,
                name: "Select Color Preset",
                description: "Select a specified color temperature.",
            },
        ),
        0x16 => Some(
            VcpFeatureInfo {
                code,
                name: "Video Gain (Drive): Red",
                description: "Sets the luminance of red pixels.",
            },
        ),
        0x17 => Some(
            VcpFeatureInfo {
                code,
                name: "User Color Vision Compensation",
                description: "Sets the degree of compensation. Intended to help people that see red colors poorly.",
            },
        ),
        0x18 => Some(
            VcpFeatureInfo {
                code,
                name: "Video Gain (Drive): Green",
                description: "Sets the luminance of green pixels.",
            },
        ),
        0x1A => Some(
            VcpFeatureInfo {
                code,
                name: "Video Gain (Drive): Blue",
                description: "Sets the luminance of blue pixels.",
            },
        ),
        0x1C => Some(
            VcpFeatureInfo {
                code,
                name: "Focus",
                description: "Sets the focus of the image.",
            },
        ),
        0x1E => Some(
            VcpFeatureInfo {
                code,
                name: "Auto Setup",
                description: "Perform auto setup function (H/V position, clock, clock phase, A/D converter, etc.)",
            },
        ),
        0x1F => Some(
            VcpFeatureInfo {
                code,
                name: "Auto Color Setup",
                description: "Perform auto color setup function (R / G / B gain and offset, A/D setup, etc.)",
            },
        ),
        0x20 => Some(
            VcpFeatureInfo {
                code,
                name: "Horizontal Position (Phase)",
                description: "Moves the image left and right on the display.",
            },
        ),
        0x22 => Some(
            VcpFeatureInfo {
                code,
                name: "Horizontal Size",
                description: "Sets the width of the image.",
            },
        ),
        0x24 => Some(
            VcpFeatureInfo {
                code,
                name: "Horizontal Pincushion",
                description: "Makes the left/right sides of the image more/less convex.",
            },
        ),
        0x26 => Some(
            VcpFeatureInfo {
                code,
                name: "Horizontal Pincushion Balance",
                description: "Increasing (decreasing) this value will move the center section of the image toward the right (left) side of the display.",
            },
        ),
        0x28 => Some(
            VcpFeatureInfo {
                code,
                name: "Horizontal Convergence R/B",
                description: "Increasing (decreasing) this value will shift the red pixels to the right (left) across the image and the blue pixels left (right) across the image with respect to the green pixels.",
            },
        ),
        0x29 => Some(
            VcpFeatureInfo {
                code,
                name: "Horizontal Convergence M/G",
                description: "Increasing (decreasing) this value will shift the magenta pixels to the right (left) across the image and the green pixels left (right) across the image with respect to the magenta pixels",
            },
        ),
        0x2A => Some(
            VcpFeatureInfo {
                code,
                name: "Horizontal Linearity",
                description: "Increasing (decreasing) this value will increase (decrease) the density of pixels in the image center",
            },
        ),
        0x2C => Some(
            VcpFeatureInfo {
                code,
                name: "Horizontal Linearity Balance",
                description: "Increasing (decreasing) this value shifts the density of pixels from the left (right) side to the right (left) side of the image.",
            },
        ),
        0x2E => Some(
            VcpFeatureInfo {
                code,
                name: "Gray Scale Expansion",
                description: "Expands the gray scale either in the near white region or the near black region (or both).",
            },
        ),
        0x30 => Some(
            VcpFeatureInfo {
                code,
                name: "Vertical Position (Phase)",
                description: "Increasing (decreasing) this value moves the image toward the top (bottom) edge of the display.",
            },
        ),
        0x32 => Some(
            VcpFeatureInfo {
                code,
                name: "Vertical Size",
                description: "Increasing (decreasing) this value will increase (decrease) the height of the image",
            },
        ),
        0x34 => Some(
            VcpFeatureInfo {
                code,
                name: "Vertical Pincushion",
                description: "Increasing (decreasing) this value will cause the top and bottom edges of the image to become more (less) convex.",
            },
        ),
        0x36 => Some(
            VcpFeatureInfo {
                code,
                name: "Vertical Pincushion Balance",
                description: "Increasing (decreasing) this value will move the center section of the image toward the top (bottom) edge of the display.",
            },
        ),
        0x38 => Some(
            VcpFeatureInfo {
                code,
                name: "Vertical Convergence R/B",
                description: "Increasing (decreasing) this value shifts the red pixels up (down) across the image and the blue pixels down (up) across the image with respect to the green pixels.",
            },
        ),
        0x39 => Some(
            VcpFeatureInfo {
                code,
                name: "Vertical Convergence M/G",
                description: "Increasing (decreasing) this value will shift the magenta pixels up (down) across the image and the green pixels down (up) across the image with respect to the magenta pixels",
            },
        ),
        0x3A => Some(
            VcpFeatureInfo {
                code,
                name: "Vertical Linearity",
                description: "Increasing (decreasing) this value will increase (decrease) the density of scan lines in the image center.",
            },
        ),
        0x3C => Some(
            VcpFeatureInfo {
                code,
                name: "Vertical Linearity Balance",
                description: "Increasing (decreasing) this value shifts the density of scan lines from the top (bottom) end to the bottom (top) end of the image",
            },
        ),
        0x3E => Some(
            VcpFeatureInfo {
                code,
                name: "Clock Phase",
                description: "Increasing (decreasing) this value will increase (decrease) the phase shift of the sampling clock.",
            },
        ),
        0x40 => Some(
            VcpFeatureInfo {
                code,
                name: "Horizontal Parallelogram",
                description: "Increasing (decreasing) this value shifts the top section of the image to the right (left) with respect to the bottom section of the image",
            },
        ),
        0x41 => Some(
            VcpFeatureInfo {
                code,
                name: "Vertical Parallelogram",
                description: "Increasing (decreasing) this value shifts the top section of the image to the right (left) with respect to the bottom section of the image.",
            },
        ),
        0x42 => Some(
            VcpFeatureInfo {
                code,
                name: "Horizontal Keystone",
                description: "Increasing (decreasing) this value will increase (decrease) the horizontal size at the top of the image with respect to the horizontal size at the bottom of the image",
            },
        ),
        0x43 => Some(
            VcpFeatureInfo {
                code,
                name: "Vertical Keystone",
                description: "Increasing (decreasing) this value will increase (decrease) the vertical size at the left of the image with respect to the vertical size at the right of the image",
            },
        ),
        0x44 => Some(
            VcpFeatureInfo {
                code,
                name: "Rotation",
                description: "Increasing (decreasing) this value rotates the image (counter) clockwise about the center point of the screen.",
            },
        ),
        0x46 => Some(
            VcpFeatureInfo {
                code,
                name: "Top Corner Flare",
                description: "Increasing (decreasing) this value will increase (decrease) the distance between the left and right sides at the top of the image.",
            },
        ),
        0x48 => Some(
            VcpFeatureInfo {
                code,
                name: "Top Corner Hook",
                description: "Increasing (decreasing) this value moves the top of the image to the right (left).",
            },
        ),
        0x4A => Some(
            VcpFeatureInfo {
                code,
                name: "Bottom Corner Flare",
                description: "Increasing (decreasing) this value will increase (decrease) the distance between the left and right sides at the bottom of the image",
            },
        ),
        0x4C => Some(
            VcpFeatureInfo {
                code,
                name: "Bottom Corner Hook",
                description: "Increasing (decreasing) this value moves the bottom of the image to the right (left).",
            },
        ),
        0x52 => Some(
            VcpFeatureInfo {
                code,
                name: "Active Control",
                description: "All VCP Codes that have new values must be added to this FIFO in the order they occur and VCP 02h must be set to = 02h when this FIFO is NOT empty.",
            },
        ),
        0x54 => Some(
            VcpFeatureInfo {
                code,
                name: "Performance Preservation",
                description: "This command provides the capability to control up to 16 features aimed at maintaining the performance of a display.",
            },
        ),
        0x56 => Some(
            VcpFeatureInfo {
                code,
                name: "Horizontal Moir",
                description: "Increasing (decreasing) this value controls the horizontal picture moir cancellation.",
            },
        ),
        0x58 => Some(
            VcpFeatureInfo {
                code,
                name: "Vertical Moir",
                description: "Increasing (decreasing) this value controls the vertical picture moir cancellation.",
            },
        ),
        0x59 => Some(
            VcpFeatureInfo {
                code,
                name: "6 Axis Saturation Control: Red",
                description: "Adjust the red saturation for 6-axis color.",
            },
        ),
        0x5A => Some(
            VcpFeatureInfo {
                code,
                name: "6 Axis Saturation Control: Yellow",
                description: "Adjust the yellow saturation for 6-axis color.",
            },
        ),
        0x5B => Some(
            VcpFeatureInfo {
                code,
                name: "6 Axis Saturation Control: Green",
                description: "Adjust the green saturation for 6-axis color.",
            },
        ),
        0x5C => Some(
            VcpFeatureInfo {
                code,
                name: "6 Axis Saturation Control: Cyan",
                description: "Adjust the cyan saturation for 6-axis color.",
            },
        ),
        0x5D => Some(
            VcpFeatureInfo {
                code,
                name: "6 Axis Saturation Control: Blue",
                description: "Adjust the blue saturation for 6-axis color.",
            },
        ),
        0x5E => Some(
            VcpFeatureInfo {
                code,
                name: "6 Axis Saturation Control: Magenta",
                description: "Adjust the magenta saturation for 6-axis color.",
            },
        ),
        0x60 => Some(
            VcpFeatureInfo {
                code,
                name: "Input Select",
                description: "Adjusts the active input on the display.",
            },
        ),
        0x62 => Some(
            VcpFeatureInfo {
                code,
                name: "Audio: Speaker Volume",
                description: "Allows the volume to be adjusted.",
            },
        ),
        0x63 => Some(
            VcpFeatureInfo {
                code,
                name: "Speaker Select",
                description: "Selects the active speakers on the display",
            },
        ),
        0x64 => Some(
            VcpFeatureInfo {
                code,
                name: "Audio: Microphone Volume",
                description: "Sets the microphone gain.",
            },
        ),
        0x65 => Some(
            VcpFeatureInfo {
                code,
                name: "Audio: Jack Connection Status",
                description: "This bitmask allows the source to determine the capabilities as well as the current configuration of speakers/lineout connected to a display, or active in an audio only device",
            },
        ),
        0x66 => Some(
            VcpFeatureInfo {
                code,
                name: "Ambient Light Sensor",
                description: "Used to control the action of an ambient light sensor",
            },
        ),
        0x6B => Some(
            VcpFeatureInfo {
                code,
                name: "Backlight Level: White",
                description: "Sets the White backlight level of the image.",
            },
        ),
        0x6C => Some(
            VcpFeatureInfo {
                code,
                name: "Video Black Level: Red",
                description: "Sets the black level of the red video.",
            },
        ),
        0x6D => Some(
            VcpFeatureInfo {
                code,
                name: "Backlight Level: Red",
                description: "Sets the Red backlight level of the image.",
            },
        ),
        0x6E => Some(
            VcpFeatureInfo {
                code,
                name: "Video Black Level: Green",
                description: "Sets the black level of the green video.",
            },
        ),
        0x6F => Some(
            VcpFeatureInfo {
                code,
                name: "Backlight Level: Green",
                description: "Sets the Green backlight level of the image.",
            },
        ),
        0x70 => Some(
            VcpFeatureInfo {
                code,
                name: "Video Black Level: Blue",
                description: "Sets the black level of the blue video",
            },
        ),
        0x71 => Some(
            VcpFeatureInfo {
                code,
                name: "Backlight Level: Blue",
                description: "Sets the Blue backlight level of the image.",
            },
        ),
        0x72 => Some(
            VcpFeatureInfo {
                code,
                name: "Gamma",
                description: "This VCP code has two distinct modes, it may be used to select an absolute (within a defined tolerance) value for gamma, or it may be used to select a value of gamma relative to the default gamma of the display",
            },
        ),
        0x73 => Some(
            VcpFeatureInfo {
                code,
                name: "LUT Size",
                description: "Provides the size (number of entries and number of bits / entry) for the Red / Green and Blue LUT in the display",
            },
        ),
        0x74 => Some(
            VcpFeatureInfo {
                code,
                name: "Single Point LUT Operation",
                description: "Allows a single point within a displays color LUT (look up table) to be loaded.",
            },
        ),
        0x75 => Some(
            VcpFeatureInfo {
                code,
                name: "Block LUT Operation",
                description: "Provides an efficient method for loading multiple values into a displays LUT.",
            },
        ),
        0x76 => Some(
            VcpFeatureInfo {
                code,
                name: "Remote Procedure Call",
                description: "Allows initiation of a routine / macro resident in the display.",
            },
        ),
        0x78 => Some(
            VcpFeatureInfo {
                code,
                name: "Display Identification on Data Operation",
                description: "This command allows a selected block (128 bytes) of Display Identification Data (e.g., EDID or DisplayID) to be read.",
            },
        ),
        0x7C => Some(
            VcpFeatureInfo {
                code,
                name: "Adjust Zoom",
                description: "Sets the zoom function of the projection lens.",
            },
        ),
        0x82 => Some(
            VcpFeatureInfo {
                code,
                name: "Horizontal Mirror (Flip)",
                description: "This VCP code allows the image to be mirrored horizontally.",
            },
        ),
        0x84 => Some(
            VcpFeatureInfo {
                code,
                name: "Vertical Mirror (Flip)",
                description: "This VCP code allows the image to be mirrored vertically.",
            },
        ),
        0x86 => Some(
            VcpFeatureInfo {
                code,
                name: "Display Scaling",
                description: "Changing this value will affect the scaling (input versus output) function of the display. NOTE: This VCP code can be used to scale up or down to the maximum screen size.",
            },
        ),
        0x87 => Some(
            VcpFeatureInfo {
                code,
                name: "Sharpness",
                description: "Allows one of a range of algorithms to be selected to suit the type of image being displayed and/or personal preference.",
            },
        ),
        0x88 => Some(
            VcpFeatureInfo {
                code,
                name: "Velocity Scan Modulation",
                description: "Increasing (decreasing) this value will increase (decrease) the velocity modulation of the horizontal scan as a function of a change in the luminance level.",
            },
        ),
        0x8A => Some(
            VcpFeatureInfo {
                code,
                name: "Color Saturation",
                description: "Increasing this control increases the amplitude of the color difference components of the video signal.",
            },
        ),
        0x8B => Some(
            VcpFeatureInfo {
                code,
                name: "TVChannel Up / Down",
                description: "Used to increment / decrement between TV-channels, the exact behavior is implementation specific (e.g. increment / decrement to next numeric channel or increment / decrement to next channel with a signal).",
            },
        ),
        0x8C => Some(
            VcpFeatureInfo {
                code,
                name: "TV-Sharpness",
                description: "Increasing this control increases the amplitude of the high frequency components of the video signal.",
            },
        ),
        0x8D => Some(
            VcpFeatureInfo {
                code,
                name: "Audio Mute / Screen Blank",
                description: "Provides for the audio to be muted or un-muted.",
            },
        ),
        0x8E => Some(
            VcpFeatureInfo {
                code,
                name: "TV-Contrast",
                description: "Increasing (decreasing) this control increases (decreases) the ratio between whites and blacks in the video.",
            },
        ),
        0x8F => Some(
            VcpFeatureInfo {
                code,
                name: "Audio Treble",
                description: "Allows control of the high frequency component of the audio.",
            },
        ),
        0x90 => Some(
            VcpFeatureInfo {
                code,
                name: "Hue",
                description: "Also known as tint Increasing (decreasing) this control increases (decreases) the wavelength of the color component of the video signal.",
            },
        ),
        0x91 => Some(
            VcpFeatureInfo {
                code,
                name: "Audio Bass",
                description: "Allows control of the low frequency component of the audio.",
            },
        ),
        0x92 => Some(
            VcpFeatureInfo {
                code,
                name: "TV-Black Level / Luminance",
                description: "Increasing this control increases the black level of the video, resulting in an increase of the luminance level of the video.",
            },
        ),
        0x93 => Some(
            VcpFeatureInfo {
                code,
                name: "Audio Balance L / R",
                description: "This control affects the left right balance of audio output. Increasing (decreasing) the value will cause the balance to move to the right (left).",
            },
        ),
        0x94 => Some(
            VcpFeatureInfo {
                code,
                name: "Audio Processor Mode",
                description: "This control allows one of several audio processing modes to be selected.",
            },
        ),
        0x95 => Some(
            VcpFeatureInfo {
                code,
                name: "Window Position (TL_X)",
                description: "Defines the top left X pixel of an area of the image. Specified in coordinates of incoming image before any scaling etc. in the display.",
            },
        ),
        0x96 => Some(
            VcpFeatureInfo {
                code,
                name: "Window Position (TL_Y)",
                description: "Defines the top left Y pixel of an area of the image. Specified in coordinates of incoming image before any scaling etc. in the display.",
            },
        ),
        0x97 => Some(
            VcpFeatureInfo {
                code,
                name: "Window Position (BR_X)",
                description: "Defines the bottom right X pixel of an area of the image. Specified in co-ordinates of the incoming image before any scaling etc. in the display.",
            },
        ),
        0x98 => Some(
            VcpFeatureInfo {
                code,
                name: "Window Position (BR_Y)",
                description: "Defines the bottom right Y pixel of an area of the image. Specified in co-ordinates of the incoming image before any processing (e.g. scaling) in the display",
            },
        ),
        0x9A => Some(
            VcpFeatureInfo {
                code,
                name: "Window Background",
                description: "Changes the contrast ratio between the area of the window and the rest of the desktop",
            },
        ),
        0x9B => Some(
            VcpFeatureInfo {
                code,
                name: "6 Axis Hue Control: Red",
                description: "Adjust the red hue for 6-axis color",
            },
        ),
        0x9C => Some(
            VcpFeatureInfo {
                code,
                name: "6 Axis Hue Control: Yellow",
                description: "Adjust the yellow hue for 6-axis color",
            },
        ),
        0x9D => Some(
            VcpFeatureInfo {
                code,
                name: "6 Axis Hue Control: Green",
                description: "Adjust the green hue for 6-axis color",
            },
        ),
        0x9E => Some(
            VcpFeatureInfo {
                code,
                name: "6 Axis Hue Control: Cyan",
                description: "Adjust the cyan hue for 6-axis color",
            },
        ),
        0x9F => Some(
            VcpFeatureInfo {
                code,
                name: "6 Axis Hue Control: Blue",
                description: "Adjust the blue hue for 6-axis color",
            },
        ),
        0xA0 => Some(
            VcpFeatureInfo {
                code,
                name: "6 Axis Hue Control: Magenta",
                description: "Adjust the magenta hue for 6-axis color",
            },
        ),
        0xA2 => Some(
            VcpFeatureInfo {
                code,
                name: "Auto Setup On / Off",
                description: "Turn on / off the auto setup function (periodic or event driven)",
            },
        ),
        0xA4 => Some(
            VcpFeatureInfo {
                code,
                name: "Window Mask Control",
                description: "Data size: Write / Read = 10 bytes This code has two sets of functions:",
            },
        ),
        0xA5 => Some(
            VcpFeatureInfo {
                code,
                name: "Window Select",
                description: "Change the selected window (as defined by 95h 98h).",
            },
        ),
        0xA6 => Some(
            VcpFeatureInfo {
                code,
                name: "Window Size",
                description: "Increasing (decreasing) this value will increase (decrease) the size of the window called out by VCP A5",
            },
        ),
        0xA7 => Some(
            VcpFeatureInfo {
                code,
                name: "Window Transparency",
                description: "Increasing (decreasing) this value will increase (decrease) the transparency of the window called out by A5",
            },
        ),
        0xAA => Some(
            VcpFeatureInfo {
                code,
                name: "Screen Orientation",
                description: "Indicates the orientation of the screen",
            },
        ),
        0xAC => Some(
            VcpFeatureInfo {
                code,
                name: "Horizontal Frequency",
                description: "Horizontal synchronization signal frequency in Hz as determined by the display.",
            },
        ),
        0xAE => Some(
            VcpFeatureInfo {
                code,
                name: "Vertical Frequency",
                description: "Vertical synchronization signal frequency in 0.01Hz as determined by the display",
            },
        ),
        0xB0 => Some(
            VcpFeatureInfo {
                code,
                name: "Settings",
                description: "Store/Restore the user saved values for current mode",
            },
        ),
        0xB2 => Some(
            VcpFeatureInfo {
                code,
                name: "Flat Panel Sub-Pixel Layout",
                description: "Indicates the type of LCD sub-pixel structure",
            },
        ),
        0xB4 => Some(
            VcpFeatureInfo {
                code,
                name: "Source Timing Mode",
                description: "Indicates the timing mode being sent by the host.",
            },
        ),
        0xB5 => Some(
            VcpFeatureInfo {
                code,
                name: "Source Color Coding",
                description: "Allows the host to specify the color coding method that is being used.",
            },
        ),
        0xB6 => Some(
            VcpFeatureInfo {
                code,
                name: "Display Technology Type",
                description: "Indicates the base technology type.",
            },
        ),
        0xB7 => Some(
            VcpFeatureInfo {
                code,
                name: "Monitor Status",
                description: "Video mode and status of a DPVL capable monitor.",
            },
        ),
        0xB8 => Some(
            VcpFeatureInfo {
                code,
                name: "Packet Count",
                description: "Counter for the DPVL packets received (valid and invalid ones). This value counts from 00 00h to FF FFh and then rolls over to 00 00h. The host can reset the value to 00 00h",
            },
        ),
        0xB9 => Some(
            VcpFeatureInfo {
                code,
                name: "Monitor X Origin",
                description: "The X origin of the monitor in the virtual screen. The support of this command indicates the multi-display support of the display. If a display supports this command, the monitor must also support Monitor Y Origin command",
            },
        ),
        0xBA => Some(
            VcpFeatureInfo {
                code,
                name: "Monitor Y Origin",
                description: "The Y origin of the display in the virtual screen. The support of this command indicates the multi-display support of the display. If a display supports this command, the monitor must also support Monitor X Origin command",
            },
        ),
        0xBB => Some(
            VcpFeatureInfo {
                code,
                name: "Header Error Count",
                description: "Error Counter for the DPVL header. The counter value saturates at FF FFh. Host can reset to 00 00h.",
            },
        ),
        0xBC => Some(
            VcpFeatureInfo {
                code,
                name: "Body CRC Error Count",
                description: "CRC error Counter for the DPVL body (containing video data). The counter value saturates at FF FFh. The Host can reset to 00 00h",
            },
        ),
        0xBD => Some(
            VcpFeatureInfo {
                code,
                name: "Client ID",
                description: "Assigned identification number for the monitor. Valid range is 0000h to FF FEh FF FFh is reserved for broadcast.",
            },
        ),
        0xBE => Some(
            VcpFeatureInfo {
                code,
                name: "Link Control",
                description: "Indicates the status of the DVI link",
            },
        ),
        0xC0 => Some(
            VcpFeatureInfo {
                code,
                name: "Display Usage Time",
                description: "Returns the current value (in hours) of active power on time accumulated by the display in the ML, SH and SL bytes",
            },
        ),
        0xC2 => Some(
            VcpFeatureInfo {
                code,
                name: "Display Descriptor Length",
                description: "Returns the length (in bytes) of non-volatile storage in the display available for writing a display descriptor the maximum descriptor length is 256 bytes",
            },
        ),
        0xC3 => Some(
            VcpFeatureInfo {
                code,
                name: "Transmit Display Descriptor",
                description: "Allows a display descriptor (up to maximum length defined by the display (see code C2h) to be written (read) to (from) nonvolatile storage in the display.",
            },
        ),
        0xC4 => Some(
            VcpFeatureInfo {
                code,
                name: "Enable Display of Display Descriptor",
                description: "If enabled, the display descriptor written to the display using VCP code C3h must be displayed when no video is being received.",
            },
        ),
        0xC6 => Some(
            VcpFeatureInfo {
                code,
                name: "Application Enable Key",
                description: "A 2-byte value used to allow an application to only operate with known products. The display manufacturer and application author agree to a code such that application will only run when a valid code is present in the display.",
            },
        ),
        0xC7 => Some(
            VcpFeatureInfo {
                code,
                name: "Display Enable Key",
                description: "This VCP code has been deprecated. It must NOT be implemented in new designs!",
            },
        ),
        0xC8 => Some(
            VcpFeatureInfo {
                code,
                name: "Display Controller ID",
                description: "Contains the ID for the display controller. 1st byte is parsed as the OEM ID, next 3 bytes is a unique chip ID assigned by the OEM.",
            },
        ),
        0xC9 => Some(
            VcpFeatureInfo {
                code,
                name: "Display Firmware Level",
                description: "Contains the firmware version of the display. 1st byte is parsed as the revision number. 2nd byte is the major version. 3rd and 4th are unused.",
            },
        ),
        0xCA => Some(
            VcpFeatureInfo {
                code,
                name: "OSD / Button Control",
                description: "Sets and indicates the current operational state of the display OSD and buttons",
            },
        ),
        0xCC => Some(
            VcpFeatureInfo {
                code,
                name: "OSD Language",
                description: "Allows the host to select the display OSD language.",
            },
        ),
        0xCD => Some(
            VcpFeatureInfo {
                code,
                name: "Status Indicators (Host)",
                description: "This command provides the capability to control up to 16 LED (or similar) indicators which may be used to indicate aspects of the host system status",
            },
        ),
        0xCE => Some(
            VcpFeatureInfo {
                code,
                name: "Auxiliary Display Size",
                description: "An auxiliary display is a small alphanumeric display associated with the primary display and able to be accessed via the primary display",
            },
        ),
        0xCF => Some(
            VcpFeatureInfo {
                code,
                name: "Auxiliary Display Data",
                description: "An auxiliary display is a small alphanumeric display associated with the primary display and able to be accessed via the primary display.",
            },
        ),
        0xD0 => Some(
            VcpFeatureInfo {
                code,
                name: "Output Select",
                description: "A one byte write/read (Byte 0), allows the host to set (write) one and only one source to output and identify (read) the current output setting",
            },
        ),
        0xD2 => Some(
            VcpFeatureInfo {
                code,
                name: "Asset Tag",
                description: "This VCP codes allows an Asset Tag to be written to a display or read from a display. It also allows for control by the display manufacturer of which applications may write an asset tag.",
            },
        ),
        0xD4 => Some(
            VcpFeatureInfo {
                code,
                name: "Stereo Video Mode",
                description: "Used to select the video mode with respect to 2D or 3D video.",
            },
        ),
        0xD6 => Some(
            VcpFeatureInfo {
                code,
                name: "Power Mode",
                description: "Controls the power mode of the display. 0 = Reserved, 1 = On, 2 = Standby, 3 = Suspend, 4 and 5 = Off",
            },
        ),
        0xD7 => Some(
            VcpFeatureInfo {
                code,
                name: "Auxiliary Power Output",
                description: "Controls output of an auxiliary power output from a display to a host device.",
            },
        ),
        0xDA => Some(
            VcpFeatureInfo {
                code,
                name: "Scan Mode",
                description: "Controls the scan characteristics.",
            },
        ),
        0xDB => Some(
            VcpFeatureInfo {
                code,
                name: "Image Mode",
                description: "Controls aspects of the displayed image",
            },
        ),
        0xDC => Some(
            VcpFeatureInfo {
                code,
                name: "Display Application",
                description: "Select an image preset like Standard, Movie, Games, etc.",
            },
        ),
        0xDE => Some(
            VcpFeatureInfo {
                code,
                name: "Scratch Pad",
                description: "Provides 2 bytes of volatile storage for use of software application(s) leading to more efficient operation.",
            },
        ),
        0xDF => Some(
            VcpFeatureInfo {
                code,
                name: "VCP Version",
                description: "Defines the version number of the MCCS standard recognized by the display.",
            },
        ),
        _ => None,
    }
}

/// Whether the catalog documents a code.
pub open spec fn is_documented(code: u8) -> bool {
    catalog_entry(code) is Some
}

/// Whether a code lies in the range that the command set leaves to the
/// vendors, `0xE0` to `0xFF`.
pub open spec fn is_vendor_reserved(code: u8) -> bool {
    code >= 0xE0
}

/// The catalog's entries for the codes below `limit`, in ascending order of
/// the codes.
pub open spec fn catalog_below(limit: nat) -> Seq<VcpFeatureInfo>
    decreases limit,
{
    if limit == 0 {
        Seq::empty()
    } else {
        let earlier = catalog_below((limit - 1) as nat);
        match catalog_entry((limit - 1) as u8) {
            Some(info) => earlier.push(info),
            None => earlier,
        }
    }
}

/// Looks a code up in the catalog.
pub fn get_vcp_code_info(code: u8) -> (info: Option<VcpFeatureInfo>)
    ensures
        info == catalog_entry(code),
        info is Some <==> is_documented(code),
        info matches Some(entry) ==> entry.code == code,
        is_vendor_reserved(code) ==> info is None,
{
    match code {
        0x00 => Some(
            VcpFeatureInfo {
                code,
                name: "Code Page",
                description: "Returns the Code Page ID number Byte SL.",
            },
        ),
        0x01 => Some(
            VcpFeatureInfo {
                code,
                name: "Degauss",
                description: "Causes a CRT display to perform a degauss cycle.",
            },
        ),
        0x02 => Some(
            VcpFeatureInfo {
                code,
                name: "New Control Value",
                description: "Indicates that a displays MCCS VCP Code register value has changed.",
            },
        ),
        0x03 => Some(
            VcpFeatureInfo {
                code,
                name: "Soft Controls",
                description: "Allows applications running on the host to use control buttons on the display.",
            },
        ),
        0x04 => Some(
            VcpFeatureInfo {
                code,
                name: "Restore Factory Defaults",
                description: "Restore all factory presets including luminance / contrast, geometry, color and TV defaults.",
            },
        ),
        0x05 => Some(
            VcpFeatureInfo {
                code,
                name: "Restore Factory Luminance / Contrast Defaults",
                description: "Restores factory defaults for luminance and contrast adjustments.",
            },
        ),
        0x06 => Some(
            VcpFeatureInfo {
                code,
                name: "Restore Factory Geometry Defaults",
                description: "Restore factory defaults for geometry adjustments.",
            },
        ),
        0x08 => Some(
            VcpFeatureInfo {
                code,
                name: "Restore Factory Color Defaults",
                description: "Restore factory defaults for color settings.",
            },
        ),
        0x0A => Some(
            VcpFeatureInfo {
                code,
                name: "Restore Factory TV Defaults",
                description: "Restore factory defaults for TV functions.",
            },
        ),
        0x0B => Some(
            VcpFeatureInfo {
                code,
                name: "User Color Temperature Increment",
                description: "Sets the minimum increment in which the display can adjust the color temperature.",
            },
        ),
        0x0C => Some(
            VcpFeatureInfo {
                code,
                name: "User Color Temperature",
                description: "Multiplier of the value set in 0x0B",
            },
        ),
        0x0E => Some(
            VcpFeatureInfo {
                code,
                name: "Clock",
                description: "Video sampling clock frequency",
            },
        ),
        0x10 => Some(
            VcpFeatureInfo {
                code,
                name: "Luminance",
                description: "Luminance of the image (Brightness control).",
            },
        ),
        0x11 => Some(
            VcpFeatureInfo {
                code,
                name: "Flesh Tone Enhancement",
                description: "This control allows for selection of contrast enhancement algorithms using a bitmask.",
            },
        ),
        0x12 => Some(
            VcpFeatureInfo {
                code,
                name: "Contrast",
                description: "Contrast of the image.",
            },
        ),
        0x13 => Some(
            VcpFeatureInfo {
                code,
                name: "Backlight Control",
                description: "This VCP code has been deprecated.",
            },
        ),
        0x14 => Some(
            VcpFeatureInfo {
                code,
                name: "Select Color Preset",
                description: "Select a specified color temperature.",
            },
        ),
        0x16 => Some(
            VcpFeatureInfo {
                code,
                name: "Video Gain (Drive): Red",
                description: "Sets the luminance of red pixels.",
            },
        ),
        0x17 => Some(
            VcpFeatureInfo {
                code,
                name: "User Color Vision Compensation",
                description: "Sets the degree of compensation. Intended to help people that see red colors poorly.",
            },
        ),
        0x18 => Some(
            VcpFeatureInfo {
                code,
                name: "Video Gain (Drive): Green",
                description: "Sets the luminance of green pixels.",
            },
        ),
        0x1A => Some(
            VcpFeatureInfo {
                code,
                name: "Video Gain (Drive): Blue",
                description: "Sets the luminance of blue pixels.",
            },
        ),
        0x1C => Some(
            VcpFeatureInfo {
                code,
                name: "Focus",
                description: "Sets the focus of the image.",
            },
        ),
        0x1E => Some(
            VcpFeatureInfo {
                code,
                name: "Auto Setup",
                description: "Perform auto setup function (H/V position, clock, clock phase, A/D converter, etc.)",
            },
        ),
        0x1F => Some(
            VcpFeatureInfo {
                code,
                name: "Auto Color Setup",
                description: "Perform auto color setup function (R / G / B gain and offset, A/D setup, etc.)",
            },
        ),
        0x20 => Some(
            VcpFeatureInfo {
                code,
                name: "Horizontal Position (Phase)",
                description: "Moves the image left and right on the display.",
            },
        ),
        0x22 => Some(
            VcpFeatureInfo {
                code,
                name: "Horizontal Size",
                description: "Sets the width of the image.",
            },
        ),
        0x24 => Some(
            VcpFeatureInfo {
                code,
                name: "Horizontal Pincushion",
                description: "Makes the left/right sides of the image more/less convex.",
            },
        ),
        0x26 => Some(
            VcpFeatureInfo {
                code,
                name: "Horizontal Pincushion Balance",
                description: "Increasing (decreasing) this value will move the center section of the image toward the right (left) side of the display.",
            },
        ),
        0x28 => Some(
            VcpFeatureInfo {
                code,
                name: "Horizontal Convergence R/B",
                description: "Increasing (decreasing) this value will shift the red pixels to the right (left) across the image and the blue pixels left (right) across the image with respect to the green pixels.",
            },
        ),
        0x29 => Some(
            VcpFeatureInfo {
                code,
                name: "Horizontal Convergence M/G",
                description: "Increasing (decreasing) this value will shift the magenta pixels to the right (left) across the image and the green pixels left (right) across the image with respect to the magenta pixels",
            },
        ),
        0x2A => Some(
            VcpFeatureInfo {
                code,
                name: "Horizontal Linearity",
                description: "Increasing (decreasing) this value will increase (decrease) the density of pixels in the image center",
            },
        ),
        0x2C => Some(
            VcpFeatureInfo {
                code,
                name: "Horizontal Linearity Balance",
                description: "Increasing (decreasing) this value shifts the density of pixels from the left (right) side to the right (left) side of the image.",
            },
        ),
        0x2E => Some(
            VcpFeatureInfo {
                code,
                name: "Gray Scale Expansion",
                description: "Expands the gray scale either in the near white region or the near black region (or both).",
            },
        ),
        0x30 => Some(
            VcpFeatureInfo {
                code,
                name: "Vertical Position (Phase)",
                description: "Increasing (decreasing) this value moves the image toward the top (bottom) edge of the display.",
            },
        ),
        0x32 => Some(
            VcpFeatureInfo {
                code,
                name: "Vertical Size",
                description: "Increasing (decreasing) this value will increase (decrease) the height of the image",
            },
        ),
        0x34 => Some(
            VcpFeatureInfo {
                code,
                name: "Vertical Pincushion",
                description: "Increasing (decreasing) this value will cause the top and bottom edges of the image to become more (less) convex.",
            },
        ),
        0x36 => Some(
            VcpFeatureInfo {
                code,
                name: "Vertical Pincushion Balance",
                description: "Increasing (decreasing) this value will move the center section of the image toward the top (bottom) edge of the display.",
            },
        ),
        0x38 => Some(
            VcpFeatureInfo {
                code,
                name: "Vertical Convergence R/B",
                description: "Increasing (decreasing) this value shifts the red pixels up (down) across the image and the blue pixels down (up) across the image with respect to the green pixels.",
            },
        ),
        0x39 => Some(
            VcpFeatureInfo {
                code,
                name: "Vertical Convergence M/G",
                description: "Increasing (decreasing) this value will shift the magenta pixels up (down) across the image and the green pixels down (up) across the image with respect to the magenta pixels",
            },
        ),
        0x3A => Some(
            VcpFeatureInfo {
                code,
                name: "Vertical Linearity",
                description: "Increasing (decreasing) this value will increase (decrease) the density of scan lines in the image center.",
            },
        ),
        0x3C => Some(
            VcpFeatureInfo {
                code,
                name: "Vertical Linearity Balance",
                description: "Increasing (decreasing) this value shifts the density of scan lines from the top (bottom) end to the bottom (top) end of the image",
            },
        ),
        0x3E => Some(
            VcpFeatureInfo {
                code,
                name: "Clock Phase",
                description: "Increasing (decreasing) this value will increase (decrease) the phase shift of the sampling clock.",
            },
        ),
        0x40 => Some(
            VcpFeatureInfo {
                code,
                name: "Horizontal Parallelogram",
                description: "Increasing (decreasing) this value shifts the top section of the image to the right (left) with respect to the bottom section of the image",
            },
        ),
        0x41 => Some(
            VcpFeatureInfo {
                code,
                name: "Vertical Parallelogram",
                description: "Increasing (decreasing) this value shifts the top section of the image to the right (left) with respect to the bottom section of the image.",
            },
        ),
        0x42 => Some(
            VcpFeatureInfo {
                code,
                name: "Horizontal Keystone",
                description: "Increasing (decreasing) this value will increase (decrease) the horizontal size at the top of the image with respect to the horizontal size at the bottom of the image",
            },
        ),
        0x43 => Some(
            VcpFeatureInfo {
                code,
                name: "Vertical Keystone",
                description: "Increasing (decreasing) this value will increase (decrease) the vertical size at the left of the image with respect to the vertical size at the right of the image",
            },
        ),
        0x44 => Some(
            VcpFeatureInfo {
                code,
                name: "Rotation",
                description: "Increasing (decreasing) this value rotates the image (counter) clockwise about the center point of the screen.",
            },
        ),
        0x46 => Some(
            VcpFeatureInfo {
                code,
                name: "Top Corner Flare",
                description: "Increasing (decreasing) this value will increase (decrease) the distance between the left and right sides at the top of the image.",
            },
        ),
        0x48 => Some(
            VcpFeatureInfo {
                code,
                name: "Top Corner Hook",
                description: "Increasing (decreasing) this value moves the top of the image to the right (left).",
            },
        ),
        0x4A => Some(
            VcpFeatureInfo {
                code,
                name: "Bottom Corner Flare",
                description: "Increasing (decreasing) this value will increase (decrease) the distance between the left and right sides at the bottom of the image",
            },
        ),
        0x4C => Some(
            VcpFeatureInfo {
                code,
                name: "Bottom Corner Hook",
                description: "Increasing (decreasing) this value moves the bottom of the image to the right (left).",
            },
        ),
        0x52 => Some(
            VcpFeatureInfo {
                code,
                name: "Active Control",
                description: "All VCP Codes that have new values must be added to this FIFO in the order they occur and VCP 02h must be set to = 02h when this FIFO is NOT empty.",
            },
        ),
        0x54 => Some(
            VcpFeatureInfo {
                code,
                name: "Performance Preservation",
                description: "This command provides the capability to control up to 16 features aimed at maintaining the performance of a display.",
            },
        ),
        0x56 => Some(
            VcpFeatureInfo {
                code,
                name: "Horizontal Moir",
                description: "Increasing (decreasing) this value controls the horizontal picture moir cancellation.",
            },
        ),
        0x58 => Some(
            VcpFeatureInfo {
                code,
                name: "Vertical Moir",
                description: "Increasing (decreasing) this value controls the vertical picture moir cancellation.",
            },
        ),
        0x59 => Some(
            VcpFeatureInfo {
                code,
                name: "6 Axis Saturation Control: Red",
                description: "Adjust the red saturation for 6-axis color.",
            },
        ),
        0x5A => Some(
            VcpFeatureInfo {
                code,
                name: "6 Axis Saturation Control: Yellow",
                description: "Adjust the yellow saturation for 6-axis color.",
            },
        ),
        0x5B => Some(
            VcpFeatureInfo {
                code,
                name: "6 Axis Saturation Control: Green",
                description: "Adjust the green saturation for 6-axis color.",
            },
        ),
        0x5C => Some(
            VcpFeatureInfo {
                code,
                name: "6 Axis Saturation Control: Cyan",
                description: "Adjust the cyan saturation for 6-axis color.",
            },
        ),
        0x5D => Some(
            VcpFeatureInfo {
                code,
                name: "6 Axis Saturation Control: Blue",
                description: "Adjust the blue saturation for 6-axis color.",
            },
        ),
        0x5E => Some(
            VcpFeatureInfo {
                code,
                name: "6 Axis Saturation Control: Magenta",
                description: "Adjust the magenta saturation for 6-axis color.",
            },
        ),
        0x60 => Some(
            VcpFeatureInfo {
                code,
                name: "Input Select",
                description: "Adjusts the active input on the display.",
            },
        ),
        0x62 => Some(
            VcpFeatureInfo {
                code,
                name: "Audio: Speaker Volume",
                description: "Allows the volume to be adjusted.",
            },
        ),
        0x63 => Some(
            VcpFeatureInfo {
                code,
                name: "Speaker Select",
                description: "Selects the active speakers on the display",
            },
        ),
        0x64 => Some(
            VcpFeatureInfo {
                code,
                name: "Audio: Microphone Volume",
                description: "Sets the microphone gain.",
            },
        ),
        0x65 => Some(
            VcpFeatureInfo {
                code,
                name: "Audio: Jack Connection Status",
                description: "This bitmask allows the source to determine the capabilities as well as the current configuration of speakers/lineout connected to a display, or active in an audio only device",
            },
        ),
        0x66 => Some(
            VcpFeatureInfo {
                code,
                name: "Ambient Light Sensor",
                description: "Used to control the action of an ambient light sensor",
            },
        ),
        0x6B => Some(
            VcpFeatureInfo {
                code,
                name: "Backlight Level: White",
                description: "Sets the White backlight level of the image.",
            },
        ),
        0x6C => Some(
            VcpFeatureInfo {
                code,
                name: "Video Black Level: Red",
                description: "Sets the black level of the red video.",
            },
        ),
        0x6D => Some(
            VcpFeatureInfo {
                code,
                name: "Backlight Level: Red",
                description: "Sets the Red backlight level of the image.",
            },
        ),
        0x6E => Some(
            VcpFeatureInfo {
                code,
                name: "Video Black Level: Green",
                description: "Sets the black level of the green video.",
            },
        ),
        0x6F => Some(
            VcpFeatureInfo {
                code,
                name: "Backlight Level: Green",
                description: "Sets the Green backlight level of the image.",
            },
        ),
        0x70 => Some(
            VcpFeatureInfo {
                code,
                name: "Video Black Level: Blue",
                description: "Sets the black level of the blue video",
            },
        ),
        0x71 => Some(
            VcpFeatureInfo {
                code,
                name: "Backlight Level: Blue",
                description: "Sets the Blue backlight level of the image.",
            },
        ),
        0x72 => Some(
            VcpFeatureInfo {
                code,
                name: "Gamma",
                description: "This VCP code has two distinct modes, it may be used to select an absolute (within a defined tolerance) value for gamma, or it may be used to select a value of gamma relative to the default gamma of the display",
            },
        ),
        0x73 => Some(
            VcpFeatureInfo {
                code,
                name: "LUT Size",
                description: "Provides the size (number of entries and number of bits / entry) for the Red / Green and Blue LUT in the display",
            },
        ),
        0x74 => Some(
            VcpFeatureInfo {
                code,
                name: "Single Point LUT Operation",
                description: "Allows a single point within a displays color LUT (look up table) to be loaded.",
            },
        ),
        0x75 => Some(
            VcpFeatureInfo {
                code,
                name: "Block LUT Operation",
                description: "Provides an efficient method for loading multiple values into a displays LUT.",
            },
        ),
        0x76 => Some(
            VcpFeatureInfo {
                code,
                name: "Remote Procedure Call",
                description: "Allows initiation of a routine / macro resident in the display.",
            },
        ),
        0x78 => Some(
            VcpFeatureInfo {
                code,
                name: "Display Identification on Data Operation",
                description: "This command allows a selected block (128 bytes) of Display Identification Data (e.g., EDID or DisplayID) to be read.",
            },
        ),
        0x7C => Some(
            VcpFeatureInfo {
                code,
                name: "Adjust Zoom",
                description: "Sets the zoom function of the projection lens.",
            },
        ),
        0x82 => Some(
            VcpFeatureInfo {
                code,
                name: "Horizontal Mirror (Flip)",
                description: "This VCP code allows the image to be mirrored horizontally.",
            },
        ),
        0x84 => Some(
            VcpFeatureInfo {
                code,
                name: "Vertical Mirror (Flip)",
                description: "This VCP code allows the image to be mirrored vertically.",
            },
        ),
        0x86 => Some(
            VcpFeatureInfo {
                code,
                name: "Display Scaling",
                description: "Changing this value will affect the scaling (input versus output) function of the display. NOTE: This VCP code can be used to scale up or down to the maximum screen size.",
            },
        ),
        0x87 => Some(
            VcpFeatureInfo {
                code,
                name: "Sharpness",
                description: "Allows one of a range of algorithms to be selected to suit the type of image being displayed and/or personal preference.",
            },
        ),
        0x88 => Some(
            VcpFeatureInfo {
                code,
                name: "Velocity Scan Modulation",
                description: "Increasing (decreasing) this value will increase (decrease) the velocity modulation of the horizontal scan as a function of a change in the luminance level.",
            },
        ),
        0x8A => Some(
            VcpFeatureInfo {
                code,
                name: "Color Saturation",
                description: "Increasing this control increases the amplitude of the color difference components of the video signal.",
            },
        ),
        0x8B => Some(
            VcpFeatureInfo {
                code,
                name: "TVChannel Up / Down",
                description: "Used to increment / decrement between TV-channels, the exact behavior is implementation specific (e.g. increment / decrement to next numeric channel or increment / decrement to next channel with a signal).",
            },
        ),
        0x8C => Some(
            VcpFeatureInfo {
                code,
                name: "TV-Sharpness",
                description: "Increasing this control increases the amplitude of the high frequency components of the video signal.",
            },
        ),
        0x8D => Some(
            VcpFeatureInfo {
                code,
                name: "Audio Mute / Screen Blank",
                description: "Provides for the audio to be muted or un-muted.",
            },
        ),
        0x8E => Some(
            VcpFeatureInfo {
                code,
                name: "TV-Contrast",
                description: "Increasing (decreasing) this control increases (decreases) the ratio between whites and blacks in the video.",
            },
        ),
        0x8F => Some(
            VcpFeatureInfo {
                code,
                name: "Audio Treble",
                description: "Allows control of the high frequency component of the audio.",
            },
        ),
        0x90 => Some(
            VcpFeatureInfo {
                code,
                name: "Hue",
                description: "Also known as tint Increasing (decreasing) this control increases (decreases) the wavelength of the color component of the video signal.",
            },
        ),
        0x91 => Some(
            VcpFeatureInfo {
                code,
                name: "Audio Bass",
                description: "Allows control of the low frequency component of the audio.",
            },
        ),
        0x92 => Some(
            VcpFeatureInfo {
                code,
                name: "TV-Black Level / Luminance",
                description: "Increasing this control increases the black level of the video, resulting in an increase of the luminance level of the video.",
            },
        ),
        0x93 => Some(
            VcpFeatureInfo {
                code,
                name: "Audio Balance L / R",
                description: "This control affects the left right balance of audio output. Increasing (decreasing) the value will cause the balance to move to the right (left).",
            },
        ),
        0x94 => Some(
            VcpFeatureInfo {
                code,
                name: "Audio Processor Mode",
                description: "This control allows one of several audio processing modes to be selected.",
            },
        ),
        0x95 => Some(
            VcpFeatureInfo {
                code,
                name: "Window Position (TL_X)",
                description: "Defines the top left X pixel of an area of the image. Specified in coordinates of incoming image before any scaling etc. in the display.",
            },
        ),
        0x96 => Some(
            VcpFeatureInfo {
                code,
                name: "Window Position (TL_Y)",
                description: "Defines the top left Y pixel of an area of the image. Specified in coordinates of incoming image before any scaling etc. in the display.",
            },
        ),
        0x97 => Some(
            VcpFeatureInfo {
                code,
                name: "Window Position (BR_X)",
                description: "Defines the bottom right X pixel of an area of the image. Specified in co-ordinates of the incoming image before any scaling etc. in the display.",
            },
        ),
        0x98 => Some(
            VcpFeatureInfo {
                code,
                name: "Window Position (BR_Y)",
                description: "Defines the bottom right Y pixel of an area of the image. Specified in co-ordinates of the incoming image before any processing (e.g. scaling) in the display",
            },
        ),
        0x9A => Some(
            VcpFeatureInfo {
                code,
                name: "Window Background",
                description: "Changes the contrast ratio between the area of the window and the rest of the desktop",
            },
        ),
        0x9B => Some(
            VcpFeatureInfo {
                code,
                name: "6 Axis Hue Control: Red",
                description: "Adjust the red hue for 6-axis color",
            },
        ),
        0x9C => Some(
            VcpFeatureInfo {
                code,
                name: "6 Axis Hue Control: Yellow",
                description: "Adjust the yellow hue for 6-axis color",
            },
        ),
        0x9D => Some(
            VcpFeatureInfo {
                code,
                name: "6 Axis Hue Control: Green",
                description: "Adjust the green hue for 6-axis color",
            },
        ),
        0x9E => Some(
            VcpFeatureInfo {
                code,
                name: "6 Axis Hue Control: Cyan",
                description: "Adjust the cyan hue for 6-axis color",
            },
        ),
        0x9F => Some(
            VcpFeatureInfo {
                code,
                name: "6 Axis Hue Control: Blue",
                description: "Adjust the blue hue for 6-axis color",
            },
        ),
        0xA0 => Some(
            VcpFeatureInfo {
                code,
                name: "6 Axis Hue Control: Magenta",
                description: "Adjust the magenta hue for 6-axis color",
            },
        ),
        0xA2 => Some(
            VcpFeatureInfo {
                code,
                name: "Auto Setup On / Off",
                description: "Turn on / off the auto setup function (periodic or event driven)",
            },
        ),
        0xA4 => Some(
            VcpFeatureInfo {
                code,
                name: "Window Mask Control",
                description: "Data size: Write / Read = 10 bytes This code has two sets of functions:",
            },
        ),
        0xA5 => Some(
            VcpFeatureInfo {
                code,
                name: "Window Select",
                description: "Change the selected window (as defined by 95h 98h).",
            },
        ),
        0xA6 => Some(
            VcpFeatureInfo {
                code,
                name: "Window Size",
                description: "Increasing (decreasing) this value will increase (decrease) the size of the window called out by VCP A5",
            },
        ),
        0xA7 => Some(
            VcpFeatureInfo {
                code,
                name: "Window Transparency",
                description: "Increasing (decreasing) this value will increase (decrease) the transparency of the window called out by A5",
            },
        ),
        0xAA => Some(
            VcpFeatureInfo {
                code,
                name: "Screen Orientation",
                description: "Indicates the orientation of the screen",
            },
        ),
        0xAC => Some(
            VcpFeatureInfo {
                code,
                name: "Horizontal Frequency",
                description: "Horizontal synchronization signal frequency in Hz as determined by the display.",
            },
        ),
        0xAE => Some(
            VcpFeatureInfo {
                code,
                name: "Vertical Frequency",
                description: "Vertical synchronization signal frequency in 0.01Hz as determined by the display",
            },
        ),
        0xB0 => Some(
            VcpFeatureInfo {
                code,
                name: "Settings",
                description: "Store/Restore the user saved values for current mode",
            },
        ),
        0xB2 => Some(
            VcpFeatureInfo {
                code,
                name: "Flat Panel Sub-Pixel Layout",
                description: "Indicates the type of LCD sub-pixel structure",
            },
        ),
        0xB4 => Some(
            VcpFeatureInfo {
                code,
                name: "Source Timing Mode",
                description: "Indicates the timing mode being sent by the host.",
            },
        ),
        0xB5 => Some(
            VcpFeatureInfo {
                code,
                name: "Source Color Coding",
                description: "Allows the host to specify the color coding method that is being used.",
            },
        ),
        0xB6 => Some(
            VcpFeatureInfo {
                code,
                name: "Display Technology Type",
                description: "Indicates the base technology type.",
            },
        ),
        0xB7 => Some(
            VcpFeatureInfo {
                code,
                name: "Monitor Status",
                description: "Video mode and status of a DPVL capable monitor.",
            },
        ),
        0xB8 => Some(
            VcpFeatureInfo {
                code,
                name: "Packet Count",
                description: "Counter for the DPVL packets received (valid and invalid ones). This value counts from 00 00h to FF FFh and then rolls over to 00 00h. The host can reset the value to 00 00h",
            },
        ),
        0xB9 => Some(
            VcpFeatureInfo {
                code,
                name: "Monitor X Origin",
                description: "The X origin of the monitor in the virtual screen. The support of this command indicates the multi-display support of the display. If a display supports this command, the monitor must also support Monitor Y Origin command",
            },
        ),
        0xBA => Some(
            VcpFeatureInfo {
                code,
                name: "Monitor Y Origin",
                description: "The Y origin of the display in the virtual screen. The support of this command indicates the multi-display support of the display. If a display supports this command, the monitor must also support Monitor X Origin command",
            },
        ),
        0xBB => Some(
            VcpFeatureInfo {
                code,
                name: "Header Error Count",
                description: "Error Counter for the DPVL header. The counter value saturates at FF FFh. Host can reset to 00 00h.",
            },
        ),
        0xBC => Some(
            VcpFeatureInfo {
                code,
                name: "Body CRC Error Count",
                description: "CRC error Counter for the DPVL body (containing video data). The counter value saturates at FF FFh. The Host can reset to 00 00h",
            },
        ),
        0xBD => Some(
            VcpFeatureInfo {
                code,
                name: "Client ID",
                description: "Assigned identification number for the monitor. Valid range is 0000h to FF FEh FF FFh is reserved for broadcast.",
            },
        ),
        0xBE => Some(
            VcpFeatureInfo {
                code,
                name: "Link Control",
                description: "Indicates the status of the DVI link",
            },
        ),
        0xC0 => Some(
            VcpFeatureInfo {
                code,
                name: "Display Usage Time",
                description: "Returns the current value (in hours) of active power on time accumulated by the display in the ML, SH and SL bytes",
            },
        ),
        0xC2 => Some(
            VcpFeatureInfo {
                code,
                name: "Display Descriptor Length",
                description: "Returns the length (in bytes) of non-volatile storage in the display available for writing a display descriptor the maximum descriptor length is 256 bytes",
            },
        ),
        0xC3 => Some(
            VcpFeatureInfo {
                code,
                name: "Transmit Display Descriptor",
                description: "Allows a display descriptor (up to maximum length defined by the display (see code C2h) to be written (read) to (from) nonvolatile storage in the display.",
            },
        ),
        0xC4 => Some(
            VcpFeatureInfo {
                code,
                name: "Enable Display of Display Descriptor",
                description: "If enabled, the display descriptor written to the display using VCP code C3h must be displayed when no video is being received.",
            },
        ),
        0xC6 => Some(
            VcpFeatureInfo {
                code,
                name: "Application Enable Key",
                description: "A 2-byte value used to allow an application to only operate with known products. The display manufacturer and application author agree to a code such that application will only run when a valid code is present in the display.",
            },
        ),
        0xC7 => Some(
            VcpFeatureInfo {
                code,
                name: "Display Enable Key",
                description: "This VCP code has been deprecated. It must NOT be implemented in new designs!",
            },
        ),
        0xC8 => Some(
            VcpFeatureInfo {
                code,
                name: "Display Controller ID",
                description: "Contains the ID for the display controller. 1st byte is parsed as the OEM ID, next 3 bytes is a unique chip ID assigned by the OEM.",
            },
        ),
        0xC9 => Some(
            VcpFeatureInfo {
                code,
                name: "Display Firmware Level",
                description: "Contains the firmware version of the display. 1st byte is parsed as the revision number. 2nd byte is the major version. 3rd and 4th are unused.",
            },
        ),
        0xCA => Some(
            VcpFeatureInfo {
                code,
                name: "OSD / Button Control",
                description: "Sets and indicates the current operational state of the display OSD and buttons",
            },
        ),
        0xCC => Some(
            VcpFeatureInfo {
                code,
                name: "OSD Language",
                description: "Allows the host to select the display OSD language.",
            },
        ),
        0xCD => Some(
            VcpFeatureInfo {
                code,
                name: "Status Indicators (Host)",
                description: "This command provides the capability to control up to 16 LED (or similar) indicators which may be used to indicate aspects of the host system status",
            },
        ),
        0xCE => Some(
            VcpFeatureInfo {
                code,
                name: "Auxiliary Display Size",
                description: "An auxiliary display is a small alphanumeric display associated with the primary display and able to be accessed via the primary display",
            },
        ),
        0xCF => Some(
            VcpFeatureInfo {
                code,
                name: "Auxiliary Display Data",
                description: "An auxiliary display is a small alphanumeric display associated with the primary display and able to be accessed via the primary display.",
            },
        ),
        0xD0 => Some(
            VcpFeatureInfo {
                code,
                name: "Output Select",
                description: "A one byte write/read (Byte 0), allows the host to set (write) one and only one source to output and identify (read) the current output setting",
            },
        ),
        0xD2 => Some(
            VcpFeatureInfo {
                code,
                name: "Asset Tag",
                description: "This VCP codes allows an Asset Tag to be written to a display or read from a display. It also allows for control by the display manufacturer of which applications may write an asset tag.",
            },
        ),
        0xD4 => Some(
            VcpFeatureInfo {
                code,
                name: "Stereo Video Mode",
                description: "Used to select the video mode with respect to 2D or 3D video.",
            },
        ),
        0xD6 => Some(
            VcpFeatureInfo {
                code,
                name: "Power Mode",
                description: "Controls the power mode of the display. 0 = Reserved, 1 = On, 2 = Standby, 3 = Suspend, 4 and 5 = Off",
            },
        ),
        0xD7 => Some(
            VcpFeatureInfo {
                code,
                name: "Auxiliary Power Output",
                description: "Controls output of an auxiliary power output from a display to a host device.",
            },
        ),
        0xDA => Some(
            VcpFeatureInfo {
                code,
                name: "Scan Mode",
                description: "Controls the scan characteristics.",
            },
        ),
        0xDB => Some(
            VcpFeatureInfo {
                code,
                name: "Image Mode",
                description: "Controls aspects of the displayed image",
            },
        ),
        0xDC => Some(
            VcpFeatureInfo {
                code,
                name: "Display Application",
                description: "Select an image preset like Standard, Movie, Games, etc.",
            },
        ),
        0xDE => Some(
            VcpFeatureInfo {
                code,
                name: "Scratch Pad",
                description: "Provides 2 bytes of volatile storage for use of software application(s) leading to more efficient operation.",
            },
        ),
        0xDF => Some(
            VcpFeatureInfo {
                code,
                name: "VCP Version",
                description: "Defines the version number of the MCCS standard recognized by the display.",
            },
        ),
        _ => None,
    }
}

/// Every entry of the catalog stands under its own code.
pub proof fn lemma_catalog_entry_code(code: u8)
    ensures
        catalog_entry(code) matches Some(entry) ==> entry.code == code,
{
}

/// The catalog has no entry for a code of the vendors' range.
pub proof fn lemma_vendor_codes_are_absent(code: u8)
    ensures
        is_vendor_reserved(code) ==> !is_documented(code),
{
}

/// The catalog below a limit holds each documented code below the limit
/// once, with the entry the catalog has for it, in strictly ascending order
/// of the codes.
pub proof fn lemma_catalog_below(limit: nat)
    requires
        limit <= 256,
    ensures
        catalog_below(limit).len() <= limit,
        forall|i: int|
            0 <= i < catalog_below(limit).len() ==> {
                let entry = #[trigger] catalog_below(limit)[i];
                entry.code < limit && catalog_entry(entry.code) == Some(entry)
            },
        forall|i: int, j: int|
            0 <= i < j < catalog_below(limit).len() ==> catalog_below(limit)[i].code
                < catalog_below(limit)[j].code,
        forall|code: u8|
            code < limit && is_documented(code) ==> catalog_below(limit).contains(
                (#[trigger] catalog_entry(code))->0,
            ),
    decreases limit,
{
    if limit > 0 {
        let last = (limit - 1) as u8;
        let earlier = catalog_below((limit - 1) as nat);
        let all = catalog_below(limit);
        lemma_catalog_below((limit - 1) as nat);
        lemma_catalog_entry_code(last);
        assert forall|i: int| 0 <= i < all.len() implies {
            let entry = #[trigger] all[i];
            entry.code < limit && catalog_entry(entry.code) == Some(entry)
        } by {
            if i < earlier.len() {
                assert(all[i] == earlier[i]);
            }
        }
        assert forall|i: int, j: int| 0 <= i < j < all.len() implies all[i].code < all[j].code by {
            assert(all[i] == earlier[i]);
            if j < earlier.len() {
                assert(all[j] == earlier[j]);
            }
        }
        assert forall|code: u8| code < limit && is_documented(code) implies all.contains(
            (#[trigger] catalog_entry(code))->0,
        ) by {
            let entry = catalog_entry(code)->0;
            if code < last {
                let at = choose|at: int| 0 <= at < earlier.len() && earlier[at] == entry;
                assert(all[at] == entry);
            } else {
                assert(all[all.len() - 1] == entry);
            }
        }
    }
}

/// The whole catalog, in ascending order of the codes.
pub fn known_vcp_codes() -> (entries: Vec<VcpFeatureInfo>)
    ensures
        entries@ == catalog_below(256),
        forall|i: int, j: int| 0 <= i < j < entries.len() ==> entries[i].code < entries[j].code,
        forall|code: u8| is_documented(code) <==> exists|i: int|
            0 <= i < entries.len() && #[trigger] entries[i].code == code,
{
    let mut entries: Vec<VcpFeatureInfo> = Vec::new();
    let mut code: u8 = 0;
    loop
        invariant_except_break
            entries@ == catalog_below(code as nat),
        ensures
            entries@ == catalog_below(256),
        decreases 255 - code,
    {
        match get_vcp_code_info(code) {
            Some(info) => entries.push(info),
            None => {},
        }
        assert(entries@ == catalog_below((code + 1) as nat));
        if code == 255 {
            break ;
        }
        code += 1;
    }
    proof {
        lemma_catalog_below(256);
        assert forall|code: u8| is_documented(code) implies exists|i: int|
            0 <= i < entries.len() && #[trigger] entries[i].code == code by {
            let at = choose|at: int|
                0 <= at < entries.len() && entries@[at] == catalog_entry(code)->0;
            lemma_catalog_entry_code(code);
            assert(entries[at].code == code);
        }
    }
    entries
}

} // verus!
