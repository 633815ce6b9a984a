//! The installer's fixed catalogue: the packages each desktop
//! environment, server and Xorg setup suggests, the login managers, the
//! graphics-driver list and the login manager that suits each desktop.
use vstd::prelude::*;
use crate::popups::new_string_vec;
use crate::text::{owned, str_eq};

verus! {

/// The packages that a desktop environment suggests, in the order shown.
pub open spec fn env_default_packages(env: Seq<char>) -> Seq<Seq<char>> {
    if env == "Awesome"@ {
        seq![
            "alacritty"@, "awesome"@, "feh"@, "gnu-free-fonts"@, "slock"@, "terminus-font"@,
            "ttf-liberation"@, "xorg-server"@, "xorg-xinit"@, "xorg-xrandr"@, "xsel"@, "xterm"@,
            "htop"@, "iwd"@, "nano"@, "openssh"@, "smartmontools"@, "vim"@, "wget"@,
            "wireless_tools"@, "wpa_supplicant"@, "xdg-utils"@,
        ]
    } else if env == "Bspwm"@ {
        seq![
            "bspwm"@, "dmenu"@, "rxvt-unicode"@, "sxhkd"@, "xdo"@, "htop"@, "iwd"@, "nano"@,
            "openssh"@, "smartmontools"@, "vim"@, "wget"@, "wireless_tools"@, "wpa_supplicant"@,
            "xdg-utils"@,
        ]
    } else if env == "Budgie"@ {
        seq![
            "arc-gtk-theme"@, "budgie"@, "mate-terminal"@, "nemo"@, "papirus-icon-theme"@, "htop"@,
            "iwd"@, "nano"@, "openssh"@, "smartmontools"@, "vim"@, "wget"@, "wireless_tools"@,
            "wpa_supplicant"@, "xdg-utils"@,
        ]
    } else if env == "Cinnamon"@ {
        seq![
            "blueman"@, "blue-utils"@, "cinnamon"@, "engrampa"@, "gnome-keyring"@,
            "gnome-screenshot"@, "gnome-terminal"@, "gvfs-smb"@, "system-config-printer"@,
            "xdg-user-dirs-gtk"@, "xed"@, "htop"@, "iwd"@, "nano"@, "openssh"@, "smartmontools"@,
            "vim"@, "wget"@, "wireless_tools"@, "wpa_supplicant"@, "xdg-utils"@,
        ]
    } else if env == "Cutefish"@ {
        seq![
            "cutefish"@, "noto-fonts"@, "htop"@, "iwd"@, "nano"@, "openssh"@, "smartmontools"@,
            "vim"@, "wget"@, "wireless_tools"@, "wpa_supplicant"@, "xdg-utils"@,
        ]
    } else if env == "Deepin"@ {
        seq![
            "deepin"@, "deepin-editor"@, "deepin-terminal"@, "htop"@, "iwd"@, "nano"@, "openssh"@,
            "smartmontools"@, "vim"@, "wget"@, "wireless_tools"@, "wpa_supplicant"@, "xdg-utils"@,
        ]
    } else if env == "Enlightenment"@ {
        seq![
            "enlightenment"@, "terminology"@, "htop"@, "iwd"@, "nano"@, "openssh"@,
            "smartmontools"@, "vim"@, "wget"@, "wireless_tools"@, "wpa_supplicant"@, "xdg-utils"@,
        ]
    } else if env == "GNOME"@ {
        seq![
            "gnome"@, "gnome-tweaks"@, "htop"@, "iwd"@, "nano"@, "openssh"@, "smartmontools"@,
            "vim"@, "wget"@, "wireless_tools"@, "wpa_supplicant"@, "xdg-utils"@,
        ]
    } else if env == "Hyprland"@ {
        seq![
            "dolphin"@, "dunst"@, "grim"@, "hyprland"@, "kitty"@, "polkit-kde-agent"@,
            "qt5-wayland"@, "qt6-wayland"@, "slurp"@, "polkit"@, "wofi"@,
            "xdg-desktop-portal-hyprland"@, "htop"@, "iwd"@, "nano"@, "openssh"@, "smartmontools"@,
            "vim"@, "wget"@, "wireless_tools"@, "wpa_supplicant"@, "xdg-utils"@,
        ]
    } else if env == "KDE Plasma"@ {
        seq![
            "ark"@, "dolphin"@, "kate"@, "konsole"@, "plasma-meta"@, "plasma-workspace"@, "htop"@,
            "iwd"@, "nano"@, "openssh"@, "smartmontools"@, "vim"@, "wget"@, "wireless_tools"@,
            "wpa_supplicant"@, "xdg-utils"@,
        ]
    } else if env == "Lxqt"@ {
        seq![
            "breeze-icons"@, "leafpad"@, "oxygen-icons"@, "slock"@, "ttf-freefont"@, "xdg-utils"@,
            "htop"@, "iwd"@, "nano"@, "openssh"@, "smartmontools"@, "vim"@, "wget"@,
            "wireless_tools"@, "wpa_supplicant"@,
        ]
    } else if env == "Mate"@ {
        seq![
            "mate"@, "mate-extra"@, "htop"@, "iwd"@, "nano"@, "openssh"@, "smartmontools"@, "vim"@,
            "wget"@, "wireless_tools"@, "wpa_supplicant"@, "xdg-utils"@,
        ]
    } else if env == "Qtile"@ {
        seq![
            "alacritty"@, "qtile"@, "htop"@, "iwd"@, "nano"@, "openssh"@, "smartmontools"@, "vim"@,
            "wget"@, "wireless_tools"@, "wpa_supplicant"@, "xdg-utils"@,
        ]
    } else if env == "Sway"@ {
        seq![
            "brightnessctl"@, "dmenu"@, "foot"@, "grim"@, "pavucontrol"@, "slurp"@, "sway"@,
            "swaybg"@, "swayidle"@, "swaylock"@, "waybar"@, "xorg-xwayland"@,
        ]
    } else if env == "Xfce4"@ {
        seq![
            "gvfs"@, "pavucontrol"@, "xarchiver"@, "xfce4"@, "xfce4-goodies"@,
        ]
    } else if env == "i3-wm"@ {
        seq![
            "dmenu"@, "i3-wm"@, "i3blocks"@, "i3lock"@, "i3status"@, "lightdm"@,
            "lightdm-gtk-greeter"@, "xss-lock"@, "xterm"@,
        ]
    } else {
        Seq::empty()
    }
}

/// The packages that a desktop environment suggests (see
/// `env_default_packages`).
pub fn env_package_list(env: &str) -> (r: Vec<String>)
    ensures
        r.deep_view() == env_default_packages(env@),
{
    if str_eq(env, "Awesome") {
        let v = new_string_vec(&[
            "alacritty", "awesome", "feh", "gnu-free-fonts", "slock", "terminus-font",
            "ttf-liberation", "xorg-server", "xorg-xinit", "xorg-xrandr", "xsel", "xterm", "htop",
            "iwd", "nano", "openssh", "smartmontools", "vim", "wget", "wireless_tools",
            "wpa_supplicant", "xdg-utils",
        ]);
        assert(v.deep_view() =~= env_default_packages(env@));
        v
    } else if str_eq(env, "Bspwm") {
        let v = new_string_vec(&[
            "bspwm", "dmenu", "rxvt-unicode", "sxhkd", "xdo", "htop", "iwd", "nano", "openssh",
            "smartmontools", "vim", "wget", "wireless_tools", "wpa_supplicant", "xdg-utils",
        ]);
        assert(v.deep_view() =~= env_default_packages(env@));
        v
    } else if str_eq(env, "Budgie") {
        let v = new_string_vec(&[
            "arc-gtk-theme", "budgie", "mate-terminal", "nemo", "papirus-icon-theme", "htop",
            "iwd", "nano", "openssh", "smartmontools", "vim", "wget", "wireless_tools",
            "wpa_supplicant", "xdg-utils",
        ]);
        assert(v.deep_view() =~= env_default_packages(env@));
        v
    } else if str_eq(env, "Cinnamon") {
        let v = new_string_vec(&[
            "blueman", "blue-utils", "cinnamon", "engrampa", "gnome-keyring", "gnome-screenshot",
            "gnome-terminal", "gvfs-smb", "system-config-printer", "xdg-user-dirs-gtk", "xed",
            "htop", "iwd", "nano", "openssh", "smartmontools", "vim", "wget", "wireless_tools",
            "wpa_supplicant", "xdg-utils",
        ]);
        assert(v.deep_view() =~= env_default_packages(env@));
        v
    } else if str_eq(env, "Cutefish") {
        let v = new_string_vec(&[
            "cutefish", "noto-fonts", "htop", "iwd", "nano", "openssh", "smartmontools", "vim",
            "wget", "wireless_tools", "wpa_supplicant", "xdg-utils",
        ]);
        assert(v.deep_view() =~= env_default_packages(env@));
        v
    } else if str_eq(env, "Deepin") {
        let v = new_string_vec(&[
            "deepin", "deepin-editor", "deepin-terminal", "htop", "iwd", "nano", "openssh",
            "smartmontools", "vim", "wget", "wireless_tools", "wpa_supplicant", "xdg-utils",
        ]);
        assert(v.deep_view() =~= env_default_packages(env@));
        v
    } else if str_eq(env, "Enlightenment") {
        let v = new_string_vec(&[
            "enlightenment", "terminology", "htop", "iwd", "nano", "openssh", "smartmontools",
            "vim", "wget", "wireless_tools", "wpa_supplicant", "xdg-utils",
        ]);
        assert(v.deep_view() =~= env_default_packages(env@));
        v
    } else if str_eq(env, "GNOME") {
        let v = new_string_vec(&[
            "gnome", "gnome-tweaks", "htop", "iwd", "nano", "openssh", "smartmontools", "vim",
            "wget", "wireless_tools", "wpa_supplicant", "xdg-utils",
        ]);
        assert(v.deep_view() =~= env_default_packages(env@));
        v
    } else if str_eq(env, "Hyprland") {
        let v = new_string_vec(&[
            "dolphin", "dunst", "grim", "hyprland", "kitty", "polkit-kde-agent", "qt5-wayland",
            "qt6-wayland", "slurp", "polkit", "wofi", "xdg-desktop-portal-hyprland", "htop", "iwd",
            "nano", "openssh", "smartmontools", "vim", "wget", "wireless_tools", "wpa_supplicant",
            "xdg-utils",
        ]);
        assert(v.deep_view() =~= env_default_packages(env@));
        v
    } else if str_eq(env, "KDE Plasma") {
        let v = new_string_vec(&[
            "ark", "dolphin", "kate", "konsole", "plasma-meta", "plasma-workspace", "htop", "iwd",
            "nano", "openssh", "smartmontools", "vim", "wget", "wireless_tools", "wpa_supplicant",
            "xdg-utils",
        ]);
        assert(v.deep_view() =~= env_default_packages(env@));
        v
    } else if str_eq(env, "Lxqt") {
        let v = new_string_vec(&[
            "breeze-icons", "leafpad", "oxygen-icons", "slock", "ttf-freefont", "xdg-utils",
            "htop", "iwd", "nano", "openssh", "smartmontools", "vim", "wget", "wireless_tools",
            "wpa_supplicant",
        ]);
        assert(v.deep_view() =~= env_default_packages(env@));
        v
    } else if str_eq(env, "Mate") {
        let v = new_string_vec(&[
            "mate", "mate-extra", "htop", "iwd", "nano", "openssh", "smartmontools", "vim", "wget",
            "wireless_tools", "wpa_supplicant", "xdg-utils",
        ]);
        assert(v.deep_view() =~= env_default_packages(env@));
        v
    } else if str_eq(env, "Qtile") {
        let v = new_string_vec(&[
            "alacritty", "qtile", "htop", "iwd", "nano", "openssh", "smartmontools", "vim", "wget",
            "wireless_tools", "wpa_supplicant", "xdg-utils",
        ]);
        assert(v.deep_view() =~= env_default_packages(env@));
        v
    } else if str_eq(env, "Sway") {
        let v = new_string_vec(&[
            "brightnessctl", "dmenu", "foot", "grim", "pavucontrol", "slurp", "sway", "swaybg",
            "swayidle", "swaylock", "waybar", "xorg-xwayland",
        ]);
        assert(v.deep_view() =~= env_default_packages(env@));
        v
    } else if str_eq(env, "Xfce4") {
        let v = new_string_vec(&[
            "gvfs", "pavucontrol", "xarchiver", "xfce4", "xfce4-goodies",
        ]);
        assert(v.deep_view() =~= env_default_packages(env@));
        v
    } else if str_eq(env, "i3-wm") {
        let v = new_string_vec(&[
            "dmenu", "i3-wm", "i3blocks", "i3lock", "i3status", "lightdm", "lightdm-gtk-greeter",
            "xss-lock", "xterm",
        ]);
        assert(v.deep_view() =~= env_default_packages(env@));
        v
    } else {
        let v: Vec<String> = Vec::new();
        assert(v.deep_view() =~= env_default_packages(env@));
        v
    }
}

/// The packages that a server setup suggests.
pub open spec fn server_default_packages(name: Seq<char>) -> Seq<Seq<char>> {
    if name == "Cockpit"@ {
        seq!["cockpit"@, "packagekit"@, "udisk2"@]
    } else if name == "Cloud"@ {
        seq!["cloud-init-parch"@, "cloud-guest-utils"@]
    } else if name == "Docker"@ {
        seq!["docker"@]
    } else if name == "Lighttpd"@ {
        seq!["lighttpd"@]
    } else if name == "Mariadb"@ {
        seq!["mariadb"@]
    } else if name == "Nginx"@ {
        seq!["nginx"@]
    } else if name == "Postgresql"@ {
        seq!["postgresql"@]
    } else if name == "Tomcat"@ {
        seq!["tomcat10"@]
    } else if name == "httpd"@ {
        seq!["apache"@]
    } else if name == "sshd"@ {
        seq!["openssh"@]
    } else {
        Seq::empty()
    }
}

/// The packages that a server setup suggests (see
/// `server_default_packages`).
pub fn server_package_list(name: &str) -> (r: Vec<String>)
    ensures
        r.deep_view() == server_default_packages(name@),
{
    let v = if str_eq(name, "Cockpit") {
        new_string_vec(&["cockpit", "packagekit", "udisk2"])
    } else if str_eq(name, "Cloud") {
        new_string_vec(&["cloud-init-parch", "cloud-guest-utils"])
    } else if str_eq(name, "Docker") {
        new_string_vec(&["docker"])
    } else if str_eq(name, "Lighttpd") {
        new_string_vec(&["lighttpd"])
    } else if str_eq(name, "Mariadb") {
        new_string_vec(&["mariadb"])
    } else if str_eq(name, "Nginx") {
        new_string_vec(&["nginx"])
    } else if str_eq(name, "Postgresql") {
        new_string_vec(&["postgresql"])
    } else if str_eq(name, "Tomcat") {
        new_string_vec(&["tomcat10"])
    } else if str_eq(name, "httpd") {
        new_string_vec(&["apache"])
    } else if str_eq(name, "sshd") {
        new_string_vec(&["openssh"])
    } else {
        Vec::new()
    };
    assert(v.deep_view() =~= server_default_packages(name@));
    v
}

/// The packages that an Xorg setup suggests.
pub open spec fn xorg_default_packages(name: Seq<char>) -> Seq<Seq<char>> {
    if name == "Xorg"@ { seq!["xorg-server"@] } else { Seq::empty() }
}

/// The packages that an Xorg setup suggests (see `xorg_default_packages`).
pub fn xorg_package_list(name: &str) -> (r: Vec<String>)
    ensures
        r.deep_view() == xorg_default_packages(name@),
{
    let v = if str_eq(name, "Xorg") { new_string_vec(&["xorg-server"]) } else { Vec::new() };
    assert(v.deep_view() =~= xorg_default_packages(name@));
    v
}

/// The login managers offered, `none` first.
pub open spec fn login_managers() -> Seq<Seq<char>> {
    seq!["none"@, "gdm"@, "lightdm-gtk-greeter"@, "lightdm-slick-greeter"@, "ly"@, "sddm"@]
}

/// The login manager in row `i` (`none` past the end): nothing for
/// `none`.
pub open spec fn login_manager_at(i: usize) -> Option<Seq<char>> {
    if i < login_managers().len() && login_managers()[i as int] != "none"@ {
        Some(login_managers()[i as int])
    } else {
        None
    }
}

/// The login manager in row `i` (see `login_manager_at`).
pub fn login_manager_choice(i: usize) -> (r: Option<String>)
    ensures
        match r {
            Some(s) => login_manager_at(i) == Some(s@),
            None => login_manager_at(i) is None,
        },
{
    let names = new_string_vec(&["none", "gdm", "lightdm-gtk-greeter", "lightdm-slick-greeter", "ly", "sddm"]);
    assert(names.deep_view() =~= login_managers());
    if i < names.len() && !str_eq(names[i].as_str(), "none") {
        Some(names[i].clone())
    } else {
        None
    }
}

/// The login manager that suits a desktop environment, if any.
pub open spec fn default_login_manager(env: Seq<char>) -> Option<Seq<char>> {
    if env == "GNOME"@ {
        Some("gdm"@)
    } else if env == "KDE Plasma"@ || env == "Hyprland"@ || env == "Cutefish"@ || env == "Lxqt"@ {
        Some("sddm"@)
    } else if env == "Budgie"@ {
        Some("lightdm-slick-greeter"@)
    } else if env == "Bspwm"@ || env == "Cinnamon"@ || env == "Deepin"@ || env == "Enlightenment"@
        || env == "Mate"@ || env == "Qtile"@ || env == "Sway"@ || env == "Xfce4"@ || env == "i3-wm"@ {
        Some("lightdm-gtk-greeter"@)
    } else {
        None
    }
}

/// The login manager that suits a desktop environment (see
/// `default_login_manager`).
pub fn default_login_manager_of(env: &str) -> (r: Option<String>)
    ensures
        match r {
            Some(s) => default_login_manager(env@) == Some(s@),
            None => default_login_manager(env@) is None,
        },
{
    if str_eq(env, "GNOME") {
        Some(owned("gdm"))
    } else if str_eq(env, "KDE Plasma") || str_eq(env, "Hyprland") || str_eq(env, "Cutefish") || str_eq(env, "Lxqt") {
        Some(owned("sddm"))
    } else if str_eq(env, "Budgie") {
        Some(owned("lightdm-slick-greeter"))
    } else if str_eq(env, "Bspwm") || str_eq(env, "Cinnamon") || str_eq(env, "Deepin") || str_eq(env, "Enlightenment")
        || str_eq(env, "Mate") || str_eq(env, "Qtile") || str_eq(env, "Sway") || str_eq(env, "Xfce4") || str_eq(env, "i3-wm") {
        Some(owned("lightdm-gtk-greeter"))
    } else {
        None
    }
}

/// The rows of the graphics-driver list: a label, and whether the row is
/// a driver (else it heads a group).
pub open spec fn driver_rows() -> Seq<(Seq<char>, bool)> {
    seq![
        (" Open Source Drivers "@, false),
        ("intel-media-driver"@, true),
        ("libva-intel-driver"@, true),
        ("mesa"@, true),
        ("vulkan-intel"@, true),
        ("vulkan-nouveau"@, true),
        ("vulkan-radeon"@, true),
        ("xf86-video-amdgpu"@, true),
        ("xf86-video-ati"@, true),
        ("xf86-video-nouveau"@, true),
        ("xorg-server"@, true),
        ("xorg-xinit"@, true),
        (" Nvidia Drivers "@, false),
        ("dkms"@, true),
        ("libva-nvidia-driver"@, true),
        (" Choose one "@, false),
        ("nvidia-open-dkms"@, true),
        ("nvidia-dkms"@, true),
    ]
}

/// The row of the graphics-driver list at `i` (see `driver_rows`).
pub fn driver_row(i: usize) -> (r: (&'static str, bool))
    requires
        i < 18,
    ensures
        r.0@ == driver_rows()[i as int].0,
        r.1 == driver_rows()[i as int].1,
{
    match i {
        0 => (" Open Source Drivers ", false),
        1 => ("intel-media-driver", true),
        2 => ("libva-intel-driver", true),
        3 => ("mesa", true),
        4 => ("vulkan-intel", true),
        5 => ("vulkan-nouveau", true),
        6 => ("vulkan-radeon", true),
        7 => ("xf86-video-amdgpu", true),
        8 => ("xf86-video-ati", true),
        9 => ("xf86-video-nouveau", true),
        10 => ("xorg-server", true),
        11 => ("xorg-xinit", true),
        12 => (" Nvidia Drivers ", false),
        13 => ("dkms", true),
        14 => ("libva-nvidia-driver", true),
        15 => (" Choose one ", false),
        16 => ("nvidia-open-dkms", true),
        _ => ("nvidia-dkms", true),
    }
}

/// The open-source drivers that their group header selects at once.
pub open spec fn open_source_drivers() -> Seq<Seq<char>> {
    seq![
        "intel-media-driver"@, "libva-intel-driver"@, "libva-mesa-driver"@, "mesa"@, "vulkan-intel"@,
        "vulkan-nouveau"@, "vulkan-radeon"@, "xf86-video-amdgpu"@, "xf86-video-ati"@,
        "xf86-video-nouveau"@, "xorg-server"@, "xorg-xinit"@,
    ]
}

/// The open-source drivers (see `open_source_drivers`).
pub fn open_source_driver_list() -> (r: Vec<String>)
    ensures
        r.deep_view() == open_source_drivers(),
{
    let v = new_string_vec(&[
        "intel-media-driver", "libva-intel-driver", "libva-mesa-driver", "mesa", "vulkan-intel",
        "vulkan-nouveau", "vulkan-radeon", "xf86-video-amdgpu", "xf86-video-ati",
        "xf86-video-nouveau", "xorg-server", "xorg-xinit",
    ]);
    assert(v.deep_view() =~= open_source_drivers());
    v
}

} // verus!
