use vstd::prelude::*;

use super::{ShaderEffect, COMMON_VERTEX_SHADER};
use super::quantum_core::{QuantumCoreEffect, QUANTUM_CORE_DESCRIPTION, QUANTUM_CORE_FRAGMENT, QUANTUM_CORE_NAME};
use super::cyber_grid::{CyberGridEffect, CYBER_GRID_DESCRIPTION, CYBER_GRID_FRAGMENT, CYBER_GRID_NAME};
use super::gravitational_nebula::{GravitationalNebulaEffect, GRAVITATIONAL_NEBULA_DESCRIPTION, GRAVITATIONAL_NEBULA_FRAGMENT, GRAVITATIONAL_NEBULA_NAME};
use super::mobile_nebula::{NebulaDriftMobileEffect, NEBULA_DRIFT_MOBILE_DESCRIPTION, NEBULA_DRIFT_MOBILE_FRAGMENT, NEBULA_DRIFT_MOBILE_NAME};
use super::mobile_filaments::{IonFilamentsMobileEffect, ION_FILAMENTS_MOBILE_DESCRIPTION, ION_FILAMENTS_MOBILE_FRAGMENT, ION_FILAMENTS_MOBILE_NAME};
use super::mobile_pulsar::{QuantumPulsarMobileEffect, QUANTUM_PULSAR_MOBILE_DESCRIPTION, QUANTUM_PULSAR_MOBILE_FRAGMENT, QUANTUM_PULSAR_MOBILE_NAME};

verus! {

/// Each preset hands back its own name, its own description and its own
/// fragment shader, and the shared full-screen quad vertex shader.
pub proof fn law_presets_hand_back_their_own_texts()
    ensures
        (QuantumCoreEffect {}).spec_name() == QUANTUM_CORE_NAME@,
        (QuantumCoreEffect {}).spec_description() == QUANTUM_CORE_DESCRIPTION@,
        (QuantumCoreEffect {}).spec_fragment_source() == QUANTUM_CORE_FRAGMENT@,
        (QuantumCoreEffect {}).spec_vertex_source() == COMMON_VERTEX_SHADER@,
        (CyberGridEffect {}).spec_name() == CYBER_GRID_NAME@,
        (CyberGridEffect {}).spec_description() == CYBER_GRID_DESCRIPTION@,
        (CyberGridEffect {}).spec_fragment_source() == CYBER_GRID_FRAGMENT@,
        (CyberGridEffect {}).spec_vertex_source() == COMMON_VERTEX_SHADER@,
        (GravitationalNebulaEffect {}).spec_name() == GRAVITATIONAL_NEBULA_NAME@,
        (GravitationalNebulaEffect {}).spec_description() == GRAVITATIONAL_NEBULA_DESCRIPTION@,
        (GravitationalNebulaEffect {}).spec_fragment_source() == GRAVITATIONAL_NEBULA_FRAGMENT@,
        (GravitationalNebulaEffect {}).spec_vertex_source() == COMMON_VERTEX_SHADER@,
        (NebulaDriftMobileEffect {}).spec_name() == NEBULA_DRIFT_MOBILE_NAME@,
        (NebulaDriftMobileEffect {}).spec_description() == NEBULA_DRIFT_MOBILE_DESCRIPTION@,
        (NebulaDriftMobileEffect {}).spec_fragment_source() == NEBULA_DRIFT_MOBILE_FRAGMENT@,
        (NebulaDriftMobileEffect {}).spec_vertex_source() == COMMON_VERTEX_SHADER@,
        (IonFilamentsMobileEffect {}).spec_name() == ION_FILAMENTS_MOBILE_NAME@,
        (IonFilamentsMobileEffect {}).spec_description() == ION_FILAMENTS_MOBILE_DESCRIPTION@,
        (IonFilamentsMobileEffect {}).spec_fragment_source() == ION_FILAMENTS_MOBILE_FRAGMENT@,
        (IonFilamentsMobileEffect {}).spec_vertex_source() == COMMON_VERTEX_SHADER@,
        (QuantumPulsarMobileEffect {}).spec_name() == QUANTUM_PULSAR_MOBILE_NAME@,
        (QuantumPulsarMobileEffect {}).spec_description() == QUANTUM_PULSAR_MOBILE_DESCRIPTION@,
        (QuantumPulsarMobileEffect {}).spec_fragment_source() == QUANTUM_PULSAR_MOBILE_FRAGMENT@,
        (QuantumPulsarMobileEffect {}).spec_vertex_source() == COMMON_VERTEX_SHADER@,
{
}

/// No two presets share a name, so the name shown for the active preset
/// tells which preset the registry made active.
pub proof fn law_preset_names_are_distinct()
    ensures
        (QuantumCoreEffect {}).spec_name() != (CyberGridEffect {}).spec_name(),
        (QuantumCoreEffect {}).spec_name() != (GravitationalNebulaEffect {}).spec_name(),
        (QuantumCoreEffect {}).spec_name() != (NebulaDriftMobileEffect {}).spec_name(),
        (QuantumCoreEffect {}).spec_name() != (IonFilamentsMobileEffect {}).spec_name(),
        (QuantumCoreEffect {}).spec_name() != (QuantumPulsarMobileEffect {}).spec_name(),
        (CyberGridEffect {}).spec_name() != (GravitationalNebulaEffect {}).spec_name(),
        (CyberGridEffect {}).spec_name() != (NebulaDriftMobileEffect {}).spec_name(),
        (CyberGridEffect {}).spec_name() != (IonFilamentsMobileEffect {}).spec_name(),
        (CyberGridEffect {}).spec_name() != (QuantumPulsarMobileEffect {}).spec_name(),
        (GravitationalNebulaEffect {}).spec_name() != (NebulaDriftMobileEffect {}).spec_name(),
        (GravitationalNebulaEffect {}).spec_name() != (IonFilamentsMobileEffect {}).spec_name(),
        (GravitationalNebulaEffect {}).spec_name() != (QuantumPulsarMobileEffect {}).spec_name(),
        (NebulaDriftMobileEffect {}).spec_name() != (IonFilamentsMobileEffect {}).spec_name(),
        (NebulaDriftMobileEffect {}).spec_name() != (QuantumPulsarMobileEffect {}).spec_name(),
        (IonFilamentsMobileEffect {}).spec_name() != (QuantumPulsarMobileEffect {}).spec_name(),
{
    reveal_strlit("Quantum Core");
    assert(QUANTUM_CORE_NAME@.len() == 12);
    reveal_strlit("Cyber Grid");
    assert(CYBER_GRID_NAME@.len() == 10);
    reveal_strlit("Gravitational Nebula");
    assert(GRAVITATIONAL_NEBULA_NAME@.len() == 20);
    reveal_strlit("Nebula Drift (Mobile)");
    assert(NEBULA_DRIFT_MOBILE_NAME@.len() == 21);
    reveal_strlit("Ion Filaments (Mobile)");
    assert(ION_FILAMENTS_MOBILE_NAME@.len() == 22);
    reveal_strlit("Quantum Pulsar (Mobile)");
    assert(QUANTUM_PULSAR_MOBILE_NAME@.len() == 23);
}

/// No two presets share a description.
pub proof fn law_preset_descriptions_are_distinct()
    ensures
        (QuantumCoreEffect {}).spec_description() != (CyberGridEffect {}).spec_description(),
        (QuantumCoreEffect {}).spec_description() != (GravitationalNebulaEffect {}).spec_description(),
        (QuantumCoreEffect {}).spec_description() != (NebulaDriftMobileEffect {}).spec_description(),
        (QuantumCoreEffect {}).spec_description() != (IonFilamentsMobileEffect {}).spec_description(),
        (QuantumCoreEffect {}).spec_description() != (QuantumPulsarMobileEffect {}).spec_description(),
        (CyberGridEffect {}).spec_description() != (GravitationalNebulaEffect {}).spec_description(),
        (CyberGridEffect {}).spec_description() != (NebulaDriftMobileEffect {}).spec_description(),
        (CyberGridEffect {}).spec_description() != (IonFilamentsMobileEffect {}).spec_description(),
        (CyberGridEffect {}).spec_description() != (QuantumPulsarMobileEffect {}).spec_description(),
        (GravitationalNebulaEffect {}).spec_description() != (NebulaDriftMobileEffect {}).spec_description(),
        (GravitationalNebulaEffect {}).spec_description() != (IonFilamentsMobileEffect {}).spec_description(),
        (GravitationalNebulaEffect {}).spec_description() != (QuantumPulsarMobileEffect {}).spec_description(),
        (NebulaDriftMobileEffect {}).spec_description() != (IonFilamentsMobileEffect {}).spec_description(),
        (NebulaDriftMobileEffect {}).spec_description() != (QuantumPulsarMobileEffect {}).spec_description(),
        (IonFilamentsMobileEffect {}).spec_description() != (QuantumPulsarMobileEffect {}).spec_description(),
{
    reveal_strlit("Raymarched 4D quantum core with chromatic aberration, orbiting rings, and gyroscopic mouse reaction");
    assert(QUANTUM_CORE_DESCRIPTION@.len() == 99);
    reveal_strlit("Infinite perspective synthwave cyber-grid with terrain elevation, horizon glow, and shockwave propagation");
    assert(CYBER_GRID_DESCRIPTION@.len() == 105);
    reveal_strlit("Fluid fractal Brownian motion deep space nebula with gravitational mouse vortex and chromatic dispersion");
    assert(GRAVITATIONAL_NEBULA_DESCRIPTION@.len() == 104);
    reveal_strlit("Lightweight domain-warped nebula with drifting star dust and a touch-reactive gravity vortex");
    assert(NEBULA_DRIFT_MOBILE_DESCRIPTION@.len() == 92);
    reveal_strlit("Ridged-noise plasma filaments threading through ionized haze, bending around your touch");
    assert(ION_FILAMENTS_MOBILE_DESCRIPTION@.len() == 87);
    reveal_strlit("Analytical 2D quantum pulsar with harmonic ripples and gyroscopic touch reaction");
    assert(QUANTUM_PULSAR_MOBILE_DESCRIPTION@.len() == 80);
}

/// No two presets share a fragment shader: each preset renders with its own.
pub proof fn law_preset_fragment_shaders_are_distinct()
    ensures
        (QuantumCoreEffect {}).spec_fragment_source() != (CyberGridEffect {}).spec_fragment_source(),
        (QuantumCoreEffect {}).spec_fragment_source() != (GravitationalNebulaEffect {}).spec_fragment_source(),
        (QuantumCoreEffect {}).spec_fragment_source() != (NebulaDriftMobileEffect {}).spec_fragment_source(),
        (QuantumCoreEffect {}).spec_fragment_source() != (IonFilamentsMobileEffect {}).spec_fragment_source(),
        (QuantumCoreEffect {}).spec_fragment_source() != (QuantumPulsarMobileEffect {}).spec_fragment_source(),
        (CyberGridEffect {}).spec_fragment_source() != (GravitationalNebulaEffect {}).spec_fragment_source(),
        (CyberGridEffect {}).spec_fragment_source() != (NebulaDriftMobileEffect {}).spec_fragment_source(),
        (CyberGridEffect {}).spec_fragment_source() != (IonFilamentsMobileEffect {}).spec_fragment_source(),
        (CyberGridEffect {}).spec_fragment_source() != (QuantumPulsarMobileEffect {}).spec_fragment_source(),
        (GravitationalNebulaEffect {}).spec_fragment_source() != (NebulaDriftMobileEffect {}).spec_fragment_source(),
        (GravitationalNebulaEffect {}).spec_fragment_source() != (IonFilamentsMobileEffect {}).spec_fragment_source(),
        (GravitationalNebulaEffect {}).spec_fragment_source() != (QuantumPulsarMobileEffect {}).spec_fragment_source(),
        (NebulaDriftMobileEffect {}).spec_fragment_source() != (IonFilamentsMobileEffect {}).spec_fragment_source(),
        (NebulaDriftMobileEffect {}).spec_fragment_source() != (QuantumPulsarMobileEffect {}).spec_fragment_source(),
        (IonFilamentsMobileEffect {}).spec_fragment_source() != (QuantumPulsarMobileEffect {}).spec_fragment_source(),
{
    reveal_strlit(r#"#version 300 es
precision highp float;

in vec2 v_uv;
out vec4 fragColor;

uniform float u_time;
uniform vec2 u_resolution;
uniform vec2 u_mouse;
uniform vec2 u_velocity;
uniform float u_scroll;
uniform vec4 u_params; // x: speed, y: warp, z: glow, w: color_shift
uniform vec4 u_ripples[5]; // x, y: center ndc, z: age, w: intensity

// Rotation matrix
mat2 rot(float a) {
    float c = cos(a), s = sin(a);
    return mat2(c, -s, s, c);
}

// Signed distance functions
float sdSphere(vec3 p, float r) {
    return length(p) - r;
}

float sdTorus(vec3 p, vec2 t) {
    vec2 q = vec2(length(p.xz) - t.x, p.y);
    return length(q) - t.y;
}

float sdBox(vec3 p, vec3 b) {
    vec3 d = abs(p) - b;
    return min(max(d.x, max(d.y, d.z)), 0.0) + length(max(d, 0.0));
}

// Scene distance estimation
float map(vec3 p, float t, float warp) {
    // Gyroscopic rotation influenced by mouse
    vec3 q = p;
    q.yz *= rot(u_mouse.y * 0.8 + t * 0.2);
    q.xz *= rot(u_mouse.x * 0.8 + t * 0.3);

    // Inner pulsating core
    float pulse = sin(t * 2.5) * 0.08 + sin(t * 5.0) * 0.03;
    float core = sdSphere(q, 0.65 + pulse);

    // Outer gyro-toruses
    vec3 t1_p = q;
    t1_p.xy *= rot(t * 0.7);
    float t1 = sdTorus(t1_p, vec2(1.15, 0.035 * warp));

    vec3 t2_p = q;
    t2_p.yz *= rot(t * 0.9 + 1.0);
    float t2 = sdTorus(t2_p, vec2(1.35, 0.025 * warp));

    vec3 t3_p = q;
    t3_p.xz *= rot(t * 1.1 + 2.0);
    float t3 = sdTorus(t3_p, vec2(1.55, 0.02 * warp));

    // Morphing shell lattice
    vec3 shell_p = q;
    shell_p = abs(shell_p) - 0.75;
    float shell = sdBox(shell_p, vec3(0.08 * warp));

    float rings = min(min(t1, t2), t3);
    return min(core, min(rings, shell));
}

void main() {
    vec2 uv = (gl_FragCoord.xy - 0.5 * u_resolution) / min(u_resolution.x, u_resolution.y);
    
    // Parallax scroll reaction
    uv.y += u_scroll * 0.0003;

    // Ripple shockwave distortion
    for(int i = 0; i < 5; i++) {
        if(u_ripples[i].w > 0.001) {
            vec2 r_center = u_ripples[i].xy * 0.5;
            float dist = length(uv - r_center);
            float wave_rad = u_ripples[i].z * 0.8;
            float ripple = sin((dist - wave_rad) * 35.0) * exp(-abs(dist - wave_rad) * 12.0);
            uv += normalize(uv - r_center + 1e-4) * ripple * 0.04 * u_ripples[i].w;
        }
    }

    float t = u_time * u_params.x * 0.6;
    float warp = u_params.y;
    float glow_mult = u_params.z;
    float color_shift = u_params.w;

    // Camera setup
    vec3 ro = vec3(0.0, 0.0, -3.4);
    vec3 rd = normalize(vec3(uv, 1.2));

    // Raymarching loop with volumetric glow accumulation
    float d = 0.0;
    float glow = 0.0;
    float ring_glow = 0.0;

    for (int i = 0; i < 64; i++) {
        vec3 p = ro + rd * d;
        float dist = map(p, t, warp);
        
        // Volumetric glow accumulation
        glow += 0.015 / (abs(dist) + 0.04);
        
        if (dist < 0.001 || d > 8.0) break;
        d += dist * 0.75;
    }

    // Color gradient composition
    vec3 colA = vec3(0.05, 0.45, 0.95); // Deep electric cyan-blue
    vec3 colB = vec3(0.75, 0.15, 0.95); // Royal magenta
    vec3 colC = vec3(0.10, 0.95, 0.70); // Emerald teal

    // Shift colors based on shift param and mouse
    vec3 core_color = mix(colA, colB, sin(t * 0.5 + color_shift * 6.28) * 0.5 + 0.5);
    core_color = mix(core_color, colC, (u_mouse.x * 0.5 + 0.5) * 0.4);

    vec3 final_color = glow * core_color * 0.07 * glow_mult;

    // Starfield / subtle dust particles
    vec2 p_uv = uv * 3.0;
    float stars = fract(sin(dot(p_uv, vec2(12.9898, 78.233))) * 43758.5453);
    if (stars > 0.985) {
        final_color += vec3(0.4, 0.6, 0.9) * (stars - 0.985) * 40.0 * (sin(t * 3.0 + stars * 10.0) * 0.5 + 0.5);
    }

    // Subtle dark vignette to make foreground resume text pop effortlessly
    float vignette = 1.0 - length(v_uv - 0.5) * 0.85;
    final_color *= clamp(vignette, 0.3, 1.0);

    // Deep background tint
    final_color += vec3(0.02, 0.03, 0.06);

    fragColor = vec4(final_color, 1.0);
}
"#);
    assert(QUANTUM_CORE_FRAGMENT@.len() == 4036);
    reveal_strlit(r#"#version 300 es
precision highp float;

in vec2 v_uv;
out vec4 fragColor;

uniform float u_time;
uniform vec2 u_resolution;
uniform vec2 u_mouse;
uniform vec2 u_velocity;
uniform float u_scroll;
uniform vec4 u_params; // x: speed, y: warp, z: glow, w: color_shift
uniform vec4 u_ripples[5];

void main() {
    vec2 uv = (gl_FragCoord.xy - 0.5 * u_resolution) / u_resolution.y;

    float t = u_time * u_params.x * 0.8;
    float warp = u_params.y;
    float glow_mult = u_params.z;
    float color_shift = u_params.w;

    // Horizon line with slight mouse pitch/roll tilt
    float horizon = 0.08 + u_mouse.y * 0.12 - u_scroll * 0.00015;
    float tilt = u_mouse.x * 0.15;
    
    uv.x += (uv.y - horizon) * tilt;

    vec3 col = vec3(0.01, 0.02, 0.05); // Deep space background

    if (uv.y < horizon) {
        // Floor perspective projection
        float depth = 1.0 / (horizon - uv.y);
        vec2 p = vec2(uv.x * depth, depth + t * 2.0);

        // Terrain elevation harmonics
        float elevation = sin(p.x * 0.6) * cos(p.y * 0.4) * 0.6 * warp;
        elevation += sin(p.x * 1.5 + t) * 0.25;

        // Apply ripples in grid world space
        for(int i = 0; i < 5; i++) {
            if(u_ripples[i].w > 0.001) {
                vec2 r_pos = vec2(u_ripples[i].x * 3.0, depth - u_ripples[i].y * 2.0);
                float d = length(p - r_pos);
                elevation += sin(d * 4.0 - u_ripples[i].z * 10.0) * exp(-d * 0.2) * 0.8 * u_ripples[i].w;
            }
        }

        // Grid lines calculation
        vec2 grid = abs(fract(p - 0.5) - 0.5) / fwidth(p);
        float line = min(grid.x, grid.y);
        float grid_val = 1.0 - min(line, 1.0);

        // Depth fog / fading into horizon
        float fog = exp(-depth * 0.07);

        // Grid neon color palette
        vec3 neon_cyan = vec3(0.0, 0.9, 1.0);
        vec3 neon_pink = vec3(1.0, 0.05, 0.6);
        vec3 neon_purple = vec3(0.5, 0.1, 1.0);

        vec3 line_color = mix(neon_cyan, neon_pink, sin(p.y * 0.05 + color_shift * 6.28) * 0.5 + 0.5);
        line_color = mix(line_color, neon_purple, sin(p.x * 0.1) * 0.5 + 0.5);

        // Add glow to lines
        col += line_color * grid_val * fog * 1.5 * glow_mult;
        // Subtle ambient floor fill
        col += line_color * 0.08 * fog * glow_mult;
    } else {
        // Sky above horizon
        float sky_y = uv.y - horizon;
        
        // Neon Horizon Glow
        float horizon_glow = exp(-sky_y * 14.0) * 1.2 * glow_mult;
        vec3 h_color = mix(vec3(1.0, 0.1, 0.5), vec3(0.0, 0.8, 1.0), sin(t * 0.3) * 0.5 + 0.5);
        col += h_color * horizon_glow;

        // Digital sun/core above horizon
        vec2 sun_pos = vec2(0.0, horizon + 0.28);
        float sun_dist = length(uv - sun_pos);
        if (sun_dist < 0.22) {
            // Horizontal synth sun stripes
            float stripes = sin((uv.y - sun_pos.y) * 90.0);
            if (stripes > -0.2 || (uv.y - sun_pos.y) > 0.08) {
                float sun_grad = (uv.y - sun_pos.y + 0.22) / 0.44;
                vec3 sun_col = mix(vec3(1.0, 0.05, 0.4), vec3(1.0, 0.9, 0.2), sun_grad);
                col += sun_col * 1.8 * glow_mult;
            }
        }
        // Sun outer atmospheric glow
        col += vec3(1.0, 0.2, 0.6) * exp(-sun_dist * 4.5) * 0.45 * glow_mult;

        // Distant cyber stars
        vec2 star_uv = uv * 20.0;
        float n = fract(sin(dot(floor(star_uv), vec2(127.1, 311.7))) * 43758.5453);
        if (n > 0.96) {
            col += vec3(0.7, 0.85, 1.0) * (sin(t * 2.0 + n * 20.0) * 0.5 + 0.5) * 0.7;
        }
    }

    // Gentle vignette
    float vig = 1.0 - length(v_uv - 0.5) * 0.75;
    col *= clamp(vig, 0.25, 1.0);

    fragColor = vec4(col, 1.0);
}
"#);
    assert(CYBER_GRID_FRAGMENT@.len() == 3725);
    reveal_strlit(r#"#version 300 es
precision highp float;

in vec2 v_uv;
out vec4 fragColor;

uniform float u_time;
uniform vec2 u_resolution;
uniform vec2 u_mouse;
uniform vec2 u_velocity;
uniform float u_scroll;
uniform vec4 u_params; // x: speed, y: warp, z: glow, w: color_shift
uniform vec4 u_ripples[5];

// 2D Rotation
mat2 rot(float a) {
    float c = cos(a), s = sin(a);
    return mat2(c, -s, s, c);
}

// Pseudo-random and noise
float hash(vec2 p) {
    p = fract(p * vec2(123.34, 456.21));
    p += dot(p, p + 45.32);
    return fract(p.x * p.y);
}

float noise(vec2 p) {
    vec2 i = floor(p);
    vec2 f = fract(p);
    vec2 u = f * f * (3.0 - 2.0 * f);

    float a = hash(i);
    float b = hash(i + vec2(1.0, 0.0));
    float c = hash(i + vec2(0.0, 1.0));
    float d = hash(i + vec2(1.0, 1.0));

    return mix(mix(a, b, u.x), mix(c, d, u.x), u.y);
}

// Multi-octave fractal Brownian motion with domain warping
float fbm(vec2 p) {
    float v = 0.0;
    float a = 0.5;
    mat2 m = rot(0.4);
    for (int i = 0; i < 5; i++) {
        v += a * noise(p);
        p = m * p * 2.02;
        a *= 0.5;
    }
    return v;
}

void main() {
    vec2 uv = (gl_FragCoord.xy - 0.5 * u_resolution) / min(u_resolution.x, u_resolution.y);
    uv.y += u_scroll * 0.0002;

    float t = u_time * u_params.x * 0.4;
    float warp = u_params.y;
    float glow_mult = u_params.z;
    float color_shift = u_params.w;

    // Gravitational mouse attractor & vortex
    vec2 mouse_ndc = u_mouse * 0.5;
    vec2 to_mouse = uv - mouse_ndc;
    float mouse_dist = length(to_mouse);
    float vortex_strength = exp(-mouse_dist * 3.0) * 0.8;
    uv += rot(vortex_strength * 4.0) * to_mouse * vortex_strength * 0.5;

    // Ripples shockwave
    for (int i = 0; i < 5; i++) {
        if (u_ripples[i].w > 0.001) {
            vec2 r_pos = u_ripples[i].xy * 0.5;
            float d = length(uv - r_pos);
            float ring = sin(d * 20.0 - u_ripples[i].z * 8.0) * exp(-d * 3.0);
            uv += normalize(uv - r_pos + 1e-4) * ring * 0.03 * u_ripples[i].w;
        }
    }

    // Domain Warping via fBm
    vec2 q = vec2(
        fbm(uv * 1.8 + vec2(0.0, 0.0) + t * 0.2),
        fbm(uv * 1.8 + vec2(5.2, 1.3) + t * 0.25)
    );

    vec2 r = vec2(
        fbm(uv * 2.2 + 4.0 * q * warp + vec2(1.7, 9.2) + t * 0.3),
        fbm(uv * 2.2 + 4.0 * q * warp + vec2(8.3, 2.8) + t * 0.35)
    );

    float f = fbm(uv * 1.5 + 4.0 * r * warp);

    // Deep space chromatic nebula palettes
    vec3 col_deep = vec3(0.02, 0.03, 0.08); // Dark cosmic void
    vec3 col_plasma = vec3(0.1, 0.5, 0.9);   // Electric blue plasma
    vec3 col_core = vec3(0.9, 0.2, 0.6);     // Magenta stellar core
    vec3 col_flare = vec3(0.98, 0.85, 0.3);  // Gold ion flare

    // Shift colors based on uniform
    col_plasma = mix(col_plasma, vec3(0.0, 0.9, 0.6), sin(color_shift * 6.28) * 0.5 + 0.5);

    vec3 color = mix(col_deep, col_plasma, clamp((f * f) * 3.5, 0.0, 1.0));
    color = mix(color, col_core, clamp(length(q), 0.0, 1.0));
    color = mix(color, col_flare, clamp(length(r.x), 0.0, 1.0) * 0.6);

    // Multiply by glow parameter
    color *= (f * 1.8 + 0.3) * glow_mult;

    // Mouse point-light flare
    color += vec3(0.3, 0.7, 1.0) * exp(-mouse_dist * 4.0) * 0.8 * glow_mult;

    // Star dust particles
    float star_noise = hash(floor(uv * 80.0));
    if (star_noise > 0.97) {
        color += vec3(0.8, 0.9, 1.0) * (sin(t * 4.0 + star_noise * 100.0) * 0.5 + 0.5) * 0.6;
    }

    // Vignette
    float vig = 1.0 - length(v_uv - 0.5) * 0.8;
    color *= clamp(vig, 0.25, 1.0);

    fragColor = vec4(color, 1.0);
}
"#);
    assert(GRAVITATIONAL_NEBULA_FRAGMENT@.len() == 3593);
    reveal_strlit(r#"#version 300 es
precision highp float;

in vec2 v_uv;
out vec4 fragColor;

uniform float u_time;
uniform vec2 u_resolution;
uniform vec2 u_mouse;
uniform vec2 u_velocity;
uniform float u_scroll;
uniform vec4 u_params; // x: speed, y: warp, z: glow, w: color_shift
uniform vec4 u_ripples[5];

mat2 rot(float a) {
    float c = cos(a), s = sin(a);
    return mat2(c, -s, s, c);
}

float hash(vec2 p) {
    p = fract(p * vec2(123.34, 456.21));
    p += dot(p, p + 45.32);
    return fract(p.x * p.y);
}

float noise(vec2 p) {
    vec2 i = floor(p);
    vec2 f = fract(p);
    vec2 u = f * f * (3.0 - 2.0 * f);

    float a = hash(i);
    float b = hash(i + vec2(1.0, 0.0));
    float c = hash(i + vec2(0.0, 1.0));
    float d = hash(i + vec2(1.0, 1.0));

    return mix(mix(a, b, u.x), mix(c, d, u.x), u.y);
}

// 4 octaves (desktop nebula uses 5) keeps the per-pixel noise budget mobile friendly
float fbm(vec2 p) {
    float v = 0.0;
    float a = 0.5;
    mat2 m = rot(0.4);
    for (int i = 0; i < 4; i++) {
        v += a * noise(p);
        p = m * p * 2.02;
        a *= 0.5;
    }
    return v;
}

void main() {
    vec2 uv = (gl_FragCoord.xy - 0.5 * u_resolution) / min(u_resolution.x, u_resolution.y);

    // Scroll advances the flow phase rather than shifting uv; the noise field fills every pixel
    float t = u_time * u_params.x * 0.4 + u_scroll * 0.001;
    float warp = u_params.y;
    float glow_mult = u_params.z;
    float color_shift = u_params.w;

    // Touch gravity vortex
    vec2 touch = u_mouse * 0.5;
    vec2 to_touch = uv - touch;
    float touch_dist = length(to_touch);
    float vortex = exp(-touch_dist * 3.0) * 0.8;
    uv += rot(vortex * 4.0) * to_touch * vortex * 0.5;

    // Ripple shockwaves
    for (int i = 0; i < 5; i++) {
        if (u_ripples[i].w > 0.001) {
            vec2 r_pos = u_ripples[i].xy * 0.5;
            float d = length(uv - r_pos);
            float ring = sin(d * 20.0 - u_ripples[i].z * 8.0) * exp(-d * 3.0);
            uv += normalize(uv - r_pos + 1e-4) * ring * 0.03 * u_ripples[i].w;
        }
    }

    // Single-level domain warp (desktop uses two): 3 fbm calls instead of 5
    vec2 q = vec2(
        fbm(uv * 1.6 + t * 0.2),
        fbm(uv * 1.6 + vec2(5.2, 1.3) - t * 0.15)
    );
    float f = fbm(uv * 1.4 + 3.5 * q * warp + vec2(1.7, 9.2) + t * 0.1);

    vec3 col_deep = vec3(0.02, 0.03, 0.08);
    vec3 col_teal = vec3(0.0, 0.55, 0.8);
    vec3 col_violet = vec3(0.45, 0.15, 0.85);
    vec3 col_rose = vec3(0.95, 0.35, 0.6);

    col_teal = mix(col_teal, vec3(0.0, 0.9, 0.6), sin(color_shift * 6.28) * 0.5 + 0.5);

    vec3 color = mix(col_deep, col_teal, clamp(f * f * 3.5, 0.0, 1.0));
    color = mix(color, col_violet, clamp(length(q) * 0.9, 0.0, 1.0));
    color = mix(color, col_rose, clamp(q.y * q.y * 1.5, 0.0, 1.0) * 0.5);

    color *= (f * 1.8 + 0.3) * glow_mult;

    // Touch point-light flare
    color += vec3(0.3, 0.7, 1.0) * exp(-touch_dist * 4.0) * 0.6 * glow_mult;

    // Twinkling star dust: a soft dot inside sparse cells, rather than filling the whole cell
    vec2 star_grid = uv * 70.0;
    float star = hash(floor(star_grid));
    if (star > 0.985) {
        float dot_mask = smoothstep(0.3, 0.0, length(fract(star_grid) - 0.5));
        color += vec3(0.8, 0.9, 1.0) * dot_mask * (sin(t * 4.0 + star * 100.0) * 0.5 + 0.5) * 0.8;
    }

    float vig = 1.0 - length(v_uv - 0.5) * 0.8;
    color *= clamp(vig, 0.25, 1.0);

    fragColor = vec4(color, 1.0);
}
"#);
    assert(NEBULA_DRIFT_MOBILE_FRAGMENT@.len() == 3459);
    reveal_strlit(r#"#version 300 es
precision highp float;

in vec2 v_uv;
out vec4 fragColor;

uniform float u_time;
uniform vec2 u_resolution;
uniform vec2 u_mouse;
uniform vec2 u_velocity;
uniform float u_scroll;
uniform vec4 u_params; // x: speed, y: warp, z: glow, w: color_shift
uniform vec4 u_ripples[5];

mat2 rot(float a) {
    float c = cos(a), s = sin(a);
    return mat2(c, -s, s, c);
}

float hash(vec2 p) {
    p = fract(p * vec2(123.34, 456.21));
    p += dot(p, p + 45.32);
    return fract(p.x * p.y);
}

float noise(vec2 p) {
    vec2 i = floor(p);
    vec2 f = fract(p);
    vec2 u = f * f * (3.0 - 2.0 * f);

    float a = hash(i);
    float b = hash(i + vec2(1.0, 0.0));
    float c = hash(i + vec2(0.0, 1.0));
    float d = hash(i + vec2(1.0, 1.0));

    return mix(mix(a, b, u.x), mix(c, d, u.x), u.y);
}

float fbm(vec2 p) {
    float v = 0.0;
    float a = 0.5;
    mat2 m = rot(0.4);
    for (int i = 0; i < 4; i++) {
        v += a * noise(p);
        p = m * p * 2.02;
        a *= 0.5;
    }
    return v;
}

// Ridged fbm: folding noise around its midpoint turns smooth clouds into thin bright strands
float ridged(vec2 p) {
    float v = 0.0;
    float a = 0.5;
    mat2 m = rot(0.7);
    for (int i = 0; i < 4; i++) {
        float n = 1.0 - abs(noise(p) * 2.0 - 1.0);
        v += a * n * n;
        p = m * p * 2.03;
        a *= 0.5;
    }
    return v;
}

void main() {
    vec2 uv = (gl_FragCoord.xy - 0.5 * u_resolution) / min(u_resolution.x, u_resolution.y);

    // Scroll advances the flow phase rather than shifting uv; the noise field fills every pixel
    float t = u_time * u_params.x * 0.35 + u_scroll * 0.001;
    float warp = u_params.y;
    float glow_mult = u_params.z;
    float color_shift = u_params.w;

    // Filaments bend around the touch point
    vec2 touch = u_mouse * 0.5;
    vec2 to_touch = uv - touch;
    float touch_dist = length(to_touch);
    float bend = exp(-touch_dist * 3.0) * 0.8;
    uv += rot(bend * 3.0) * to_touch * bend * 0.4;

    // Ripple shockwaves
    for (int i = 0; i < 5; i++) {
        if (u_ripples[i].w > 0.001) {
            vec2 r_pos = u_ripples[i].xy * 0.5;
            float d = length(uv - r_pos);
            float ring = sin(d * 20.0 - u_ripples[i].z * 8.0) * exp(-d * 3.0);
            uv += normalize(uv - r_pos + 1e-4) * ring * 0.03 * u_ripples[i].w;
        }
    }

    // Soft haze field, which also warps the filaments so they flow with it
    vec2 q = vec2(
        fbm(uv * 1.2 + t * 0.15),
        fbm(uv * 1.2 + vec2(3.1, 7.4) - t * 0.12)
    );
    float fil = ridged(uv * 1.8 + 2.5 * q * warp + vec2(t * 0.05, -t * 0.04));

    vec3 col_deep = vec3(0.02, 0.02, 0.07);
    vec3 col_haze = vec3(0.25, 0.1, 0.55);
    vec3 col_arc = vec3(0.95, 0.2, 0.7);
    vec3 col_hot = vec3(1.0, 0.8, 0.35);

    col_arc = mix(col_arc, vec3(0.1, 0.6, 1.0), sin(color_shift * 6.28) * 0.5 + 0.5);

    vec3 color = col_deep + col_haze * q.x * q.x * 1.6;
    float strand = pow(fil, 2.5);
    color += mix(col_arc, col_hot, pow(fil, 4.0)) * strand * 1.6 * glow_mult;

    // Touch point-light flare
    color += vec3(0.9, 0.4, 1.0) * exp(-touch_dist * 4.0) * 0.5 * glow_mult;

    float vig = 1.0 - length(v_uv - 0.5) * 0.8;
    color *= clamp(vig, 0.25, 1.0);

    fragColor = vec4(color, 1.0);
}
"#);
    assert(ION_FILAMENTS_MOBILE_FRAGMENT@.len() == 3269);
    reveal_strlit(r#"#version 300 es
precision highp float;

in vec2 v_uv;
out vec4 fragColor;

uniform float u_time;
uniform vec2 u_resolution;
uniform vec2 u_mouse;
uniform vec2 u_velocity;
uniform float u_scroll;
uniform vec4 u_params; // x: speed, y: warp, z: glow, w: color_shift
uniform vec4 u_ripples[5];

void main() {
    vec2 uv = (gl_FragCoord.xy - 0.5 * u_resolution) / min(u_resolution.x, u_resolution.y);

    // Scroll advances the animation phase rather than shifting uv, so the pulsar stays centered
    float t = u_time * u_params.x * 0.8 + u_scroll * 0.0015;
    float warp = u_params.y;
    float glow_mult = u_params.z;
    float color_shift = u_params.w;

    // Mobile touch attractor
    vec2 touch = u_mouse * 0.4;
    vec2 p = uv - touch;

    float dist = length(p);

    // Dynamic pulsating radius
    float pulse = sin(t * 3.0) * 0.04 + sin(t * 6.0) * 0.02;
    float r = 0.35 + pulse;

    // Outer harmonic wave interference rings
    float ring1 = abs(dist - 0.55 - sin(t * 1.5) * 0.05);
    float ring2 = abs(dist - 0.75 - cos(t * 2.0) * 0.04 * warp);
    float ring3 = abs(dist - 0.95 - sin(t * 2.5) * 0.03 * warp);

    float glow_core = 0.04 / (abs(dist - r) + 0.06);
    float glow_r1 = 0.015 / (ring1 + 0.04);
    float glow_r2 = 0.012 / (ring2 + 0.04);
    float glow_r3 = 0.009 / (ring3 + 0.04);

    vec3 cyan = vec3(0.05, 0.5, 1.0);
    vec3 magenta = vec3(0.9, 0.15, 0.8);
    vec3 gold = vec3(1.0, 0.8, 0.2);

    vec3 core_col = mix(cyan, magenta, sin(t * 0.5 + color_shift * 6.28) * 0.5 + 0.5);
    vec3 ring_col = mix(magenta, gold, cos(t * 0.7) * 0.5 + 0.5);

    vec3 col = vec3(0.015, 0.02, 0.06);
    col += core_col * glow_core * 1.8 * glow_mult;
    col += ring_col * (glow_r1 + glow_r2 + glow_r3) * 1.2 * glow_mult;

    // Ripple shockwaves
    for (int i = 0; i < 5; i++) {
        if (u_ripples[i].w > 0.001) {
            vec2 r_pos = u_ripples[i].xy * 0.5;
            float d = length(uv - r_pos);
            float wave = sin(d * 24.0 - u_ripples[i].z * 10.0) * exp(-d * 3.5);
            col += cyan * wave * 0.25 * u_ripples[i].w;
        }
    }

    // Vignette
    float vig = 1.0 - length(v_uv - 0.5) * 0.8;
    col *= clamp(vig, 0.25, 1.0);

    fragColor = vec4(col, 1.0);
}
"#);
    assert(QUANTUM_PULSAR_MOBILE_FRAGMENT@.len() == 2224);
}

/// Every shader a preset hands back, vertex or fragment, is GLSL ES 3.00:
/// its text starts with the `#version 300 es` directive.
pub proof fn law_shaders_are_glsl_300_es()
    ensures
        COMMON_VERTEX_SHADER@.take(15) == "#version 300 es"@,
        (QuantumCoreEffect {}).spec_fragment_source().take(15) == "#version 300 es"@,
        (CyberGridEffect {}).spec_fragment_source().take(15) == "#version 300 es"@,
        (GravitationalNebulaEffect {}).spec_fragment_source().take(15) == "#version 300 es"@,
        (NebulaDriftMobileEffect {}).spec_fragment_source().take(15) == "#version 300 es"@,
        (IonFilamentsMobileEffect {}).spec_fragment_source().take(15) == "#version 300 es"@,
        (QuantumPulsarMobileEffect {}).spec_fragment_source().take(15) == "#version 300 es"@,
{
    reveal_strlit("#version 300 es");
    reveal_strlit(r#"#version 300 es
in vec2 a_position;
out vec2 v_uv;

void main() {
    v_uv = (a_position + 1.0) * 0.5;
    gl_Position = vec4(a_position, 0.0, 1.0);
}
"#);
    reveal_strlit(r#"#version 300 es
precision highp float;

in vec2 v_uv;
out vec4 fragColor;

uniform float u_time;
uniform vec2 u_resolution;
uniform vec2 u_mouse;
uniform vec2 u_velocity;
uniform float u_scroll;
uniform vec4 u_params; // x: speed, y: warp, z: glow, w: color_shift
uniform vec4 u_ripples[5]; // x, y: center ndc, z: age, w: intensity

// Rotation matrix
mat2 rot(float a) {
    float c = cos(a), s = sin(a);
    return mat2(c, -s, s, c);
}

// Signed distance functions
float sdSphere(vec3 p, float r) {
    return length(p) - r;
}

float sdTorus(vec3 p, vec2 t) {
    vec2 q = vec2(length(p.xz) - t.x, p.y);
    return length(q) - t.y;
}

float sdBox(vec3 p, vec3 b) {
    vec3 d = abs(p) - b;
    return min(max(d.x, max(d.y, d.z)), 0.0) + length(max(d, 0.0));
}

// Scene distance estimation
float map(vec3 p, float t, float warp) {
    // Gyroscopic rotation influenced by mouse
    vec3 q = p;
    q.yz *= rot(u_mouse.y * 0.8 + t * 0.2);
    q.xz *= rot(u_mouse.x * 0.8 + t * 0.3);

    // Inner pulsating core
    float pulse = sin(t * 2.5) * 0.08 + sin(t * 5.0) * 0.03;
    float core = sdSphere(q, 0.65 + pulse);

    // Outer gyro-toruses
    vec3 t1_p = q;
    t1_p.xy *= rot(t * 0.7);
    float t1 = sdTorus(t1_p, vec2(1.15, 0.035 * warp));

    vec3 t2_p = q;
    t2_p.yz *= rot(t * 0.9 + 1.0);
    float t2 = sdTorus(t2_p, vec2(1.35, 0.025 * warp));

    vec3 t3_p = q;
    t3_p.xz *= rot(t * 1.1 + 2.0);
    float t3 = sdTorus(t3_p, vec2(1.55, 0.02 * warp));

    // Morphing shell lattice
    vec3 shell_p = q;
    shell_p = abs(shell_p) - 0.75;
    float shell = sdBox(shell_p, vec3(0.08 * warp));

    float rings = min(min(t1, t2), t3);
    return min(core, min(rings, shell));
}

void main() {
    vec2 uv = (gl_FragCoord.xy - 0.5 * u_resolution) / min(u_resolution.x, u_resolution.y);
    
    // Parallax scroll reaction
    uv.y += u_scroll * 0.0003;

    // Ripple shockwave distortion
    for(int i = 0; i < 5; i++) {
        if(u_ripples[i].w > 0.001) {
            vec2 r_center = u_ripples[i].xy * 0.5;
            float dist = length(uv - r_center);
            float wave_rad = u_ripples[i].z * 0.8;
            float ripple = sin((dist - wave_rad) * 35.0) * exp(-abs(dist - wave_rad) * 12.0);
            uv += normalize(uv - r_center + 1e-4) * ripple * 0.04 * u_ripples[i].w;
        }
    }

    float t = u_time * u_params.x * 0.6;
    float warp = u_params.y;
    float glow_mult = u_params.z;
    float color_shift = u_params.w;

    // Camera setup
    vec3 ro = vec3(0.0, 0.0, -3.4);
    vec3 rd = normalize(vec3(uv, 1.2));

    // Raymarching loop with volumetric glow accumulation
    float d = 0.0;
    float glow = 0.0;
    float ring_glow = 0.0;

    for (int i = 0; i < 64; i++) {
        vec3 p = ro + rd * d;
        float dist = map(p, t, warp);
        
        // Volumetric glow accumulation
        glow += 0.015 / (abs(dist) + 0.04);
        
        if (dist < 0.001 || d > 8.0) break;
        d += dist * 0.75;
    }

    // Color gradient composition
    vec3 colA = vec3(0.05, 0.45, 0.95); // Deep electric cyan-blue
    vec3 colB = vec3(0.75, 0.15, 0.95); // Royal magenta
    vec3 colC = vec3(0.10, 0.95, 0.70); // Emerald teal

    // Shift colors based on shift param and mouse
    vec3 core_color = mix(colA, colB, sin(t * 0.5 + color_shift * 6.28) * 0.5 + 0.5);
    core_color = mix(core_color, colC, (u_mouse.x * 0.5 + 0.5) * 0.4);

    vec3 final_color = glow * core_color * 0.07 * glow_mult;

    // Starfield / subtle dust particles
    vec2 p_uv = uv * 3.0;
    float stars = fract(sin(dot(p_uv, vec2(12.9898, 78.233))) * 43758.5453);
    if (stars > 0.985) {
        final_color += vec3(0.4, 0.6, 0.9) * (stars - 0.985) * 40.0 * (sin(t * 3.0 + stars * 10.0) * 0.5 + 0.5);
    }

    // Subtle dark vignette to make foreground resume text pop effortlessly
    float vignette = 1.0 - length(v_uv - 0.5) * 0.85;
    final_color *= clamp(vignette, 0.3, 1.0);

    // Deep background tint
    final_color += vec3(0.02, 0.03, 0.06);

    fragColor = vec4(final_color, 1.0);
}
"#);
    reveal_strlit(r#"#version 300 es
precision highp float;

in vec2 v_uv;
out vec4 fragColor;

uniform float u_time;
uniform vec2 u_resolution;
uniform vec2 u_mouse;
uniform vec2 u_velocity;
uniform float u_scroll;
uniform vec4 u_params; // x: speed, y: warp, z: glow, w: color_shift
uniform vec4 u_ripples[5];

void main() {
    vec2 uv = (gl_FragCoord.xy - 0.5 * u_resolution) / u_resolution.y;

    float t = u_time * u_params.x * 0.8;
    float warp = u_params.y;
    float glow_mult = u_params.z;
    float color_shift = u_params.w;

    // Horizon line with slight mouse pitch/roll tilt
    float horizon = 0.08 + u_mouse.y * 0.12 - u_scroll * 0.00015;
    float tilt = u_mouse.x * 0.15;
    
    uv.x += (uv.y - horizon) * tilt;

    vec3 col = vec3(0.01, 0.02, 0.05); // Deep space background

    if (uv.y < horizon) {
        // Floor perspective projection
        float depth = 1.0 / (horizon - uv.y);
        vec2 p = vec2(uv.x * depth, depth + t * 2.0);

        // Terrain elevation harmonics
        float elevation = sin(p.x * 0.6) * cos(p.y * 0.4) * 0.6 * warp;
        elevation += sin(p.x * 1.5 + t) * 0.25;

        // Apply ripples in grid world space
        for(int i = 0; i < 5; i++) {
            if(u_ripples[i].w > 0.001) {
                vec2 r_pos = vec2(u_ripples[i].x * 3.0, depth - u_ripples[i].y * 2.0);
                float d = length(p - r_pos);
                elevation += sin(d * 4.0 - u_ripples[i].z * 10.0) * exp(-d * 0.2) * 0.8 * u_ripples[i].w;
            }
        }

        // Grid lines calculation
        vec2 grid = abs(fract(p - 0.5) - 0.5) / fwidth(p);
        float line = min(grid.x, grid.y);
        float grid_val = 1.0 - min(line, 1.0);

        // Depth fog / fading into horizon
        float fog = exp(-depth * 0.07);

        // Grid neon color palette
        vec3 neon_cyan = vec3(0.0, 0.9, 1.0);
        vec3 neon_pink = vec3(1.0, 0.05, 0.6);
        vec3 neon_purple = vec3(0.5, 0.1, 1.0);

        vec3 line_color = mix(neon_cyan, neon_pink, sin(p.y * 0.05 + color_shift * 6.28) * 0.5 + 0.5);
        line_color = mix(line_color, neon_purple, sin(p.x * 0.1) * 0.5 + 0.5);

        // Add glow to lines
        col += line_color * grid_val * fog * 1.5 * glow_mult;
        // Subtle ambient floor fill
        col += line_color * 0.08 * fog * glow_mult;
    } else {
        // Sky above horizon
        float sky_y = uv.y - horizon;
        
        // Neon Horizon Glow
        float horizon_glow = exp(-sky_y * 14.0) * 1.2 * glow_mult;
        vec3 h_color = mix(vec3(1.0, 0.1, 0.5), vec3(0.0, 0.8, 1.0), sin(t * 0.3) * 0.5 + 0.5);
        col += h_color * horizon_glow;

        // Digital sun/core above horizon
        vec2 sun_pos = vec2(0.0, horizon + 0.28);
        float sun_dist = length(uv - sun_pos);
        if (sun_dist < 0.22) {
            // Horizontal synth sun stripes
            float stripes = sin((uv.y - sun_pos.y) * 90.0);
            if (stripes > -0.2 || (uv.y - sun_pos.y) > 0.08) {
                float sun_grad = (uv.y - sun_pos.y + 0.22) / 0.44;
                vec3 sun_col = mix(vec3(1.0, 0.05, 0.4), vec3(1.0, 0.9, 0.2), sun_grad);
                col += sun_col * 1.8 * glow_mult;
            }
        }
        // Sun outer atmospheric glow
        col += vec3(1.0, 0.2, 0.6) * exp(-sun_dist * 4.5) * 0.45 * glow_mult;

        // Distant cyber stars
        vec2 star_uv = uv * 20.0;
        float n = fract(sin(dot(floor(star_uv), vec2(127.1, 311.7))) * 43758.5453);
        if (n > 0.96) {
            col += vec3(0.7, 0.85, 1.0) * (sin(t * 2.0 + n * 20.0) * 0.5 + 0.5) * 0.7;
        }
    }

    // Gentle vignette
    float vig = 1.0 - length(v_uv - 0.5) * 0.75;
    col *= clamp(vig, 0.25, 1.0);

    fragColor = vec4(col, 1.0);
}
"#);
    reveal_strlit(r#"#version 300 es
precision highp float;

in vec2 v_uv;
out vec4 fragColor;

uniform float u_time;
uniform vec2 u_resolution;
uniform vec2 u_mouse;
uniform vec2 u_velocity;
uniform float u_scroll;
uniform vec4 u_params; // x: speed, y: warp, z: glow, w: color_shift
uniform vec4 u_ripples[5];

// 2D Rotation
mat2 rot(float a) {
    float c = cos(a), s = sin(a);
    return mat2(c, -s, s, c);
}

// Pseudo-random and noise
float hash(vec2 p) {
    p = fract(p * vec2(123.34, 456.21));
    p += dot(p, p + 45.32);
    return fract(p.x * p.y);
}

float noise(vec2 p) {
    vec2 i = floor(p);
    vec2 f = fract(p);
    vec2 u = f * f * (3.0 - 2.0 * f);

    float a = hash(i);
    float b = hash(i + vec2(1.0, 0.0));
    float c = hash(i + vec2(0.0, 1.0));
    float d = hash(i + vec2(1.0, 1.0));

    return mix(mix(a, b, u.x), mix(c, d, u.x), u.y);
}

// Multi-octave fractal Brownian motion with domain warping
float fbm(vec2 p) {
    float v = 0.0;
    float a = 0.5;
    mat2 m = rot(0.4);
    for (int i = 0; i < 5; i++) {
        v += a * noise(p);
        p = m * p * 2.02;
        a *= 0.5;
    }
    return v;
}

void main() {
    vec2 uv = (gl_FragCoord.xy - 0.5 * u_resolution) / min(u_resolution.x, u_resolution.y);
    uv.y += u_scroll * 0.0002;

    float t = u_time * u_params.x * 0.4;
    float warp = u_params.y;
    float glow_mult = u_params.z;
    float color_shift = u_params.w;

    // Gravitational mouse attractor & vortex
    vec2 mouse_ndc = u_mouse * 0.5;
    vec2 to_mouse = uv - mouse_ndc;
    float mouse_dist = length(to_mouse);
    float vortex_strength = exp(-mouse_dist * 3.0) * 0.8;
    uv += rot(vortex_strength * 4.0) * to_mouse * vortex_strength * 0.5;

    // Ripples shockwave
    for (int i = 0; i < 5; i++) {
        if (u_ripples[i].w > 0.001) {
            vec2 r_pos = u_ripples[i].xy * 0.5;
            float d = length(uv - r_pos);
            float ring = sin(d * 20.0 - u_ripples[i].z * 8.0) * exp(-d * 3.0);
            uv += normalize(uv - r_pos + 1e-4) * ring * 0.03 * u_ripples[i].w;
        }
    }

    // Domain Warping via fBm
    vec2 q = vec2(
        fbm(uv * 1.8 + vec2(0.0, 0.0) + t * 0.2),
        fbm(uv * 1.8 + vec2(5.2, 1.3) + t * 0.25)
    );

    vec2 r = vec2(
        fbm(uv * 2.2 + 4.0 * q * warp + vec2(1.7, 9.2) + t * 0.3),
        fbm(uv * 2.2 + 4.0 * q * warp + vec2(8.3, 2.8) + t * 0.35)
    );

    float f = fbm(uv * 1.5 + 4.0 * r * warp);

    // Deep space chromatic nebula palettes
    vec3 col_deep = vec3(0.02, 0.03, 0.08); // Dark cosmic void
    vec3 col_plasma = vec3(0.1, 0.5, 0.9);   // Electric blue plasma
    vec3 col_core = vec3(0.9, 0.2, 0.6);     // Magenta stellar core
    vec3 col_flare = vec3(0.98, 0.85, 0.3);  // Gold ion flare

    // Shift colors based on uniform
    col_plasma = mix(col_plasma, vec3(0.0, 0.9, 0.6), sin(color_shift * 6.28) * 0.5 + 0.5);

    vec3 color = mix(col_deep, col_plasma, clamp((f * f) * 3.5, 0.0, 1.0));
    color = mix(color, col_core, clamp(length(q), 0.0, 1.0));
    color = mix(color, col_flare, clamp(length(r.x), 0.0, 1.0) * 0.6);

    // Multiply by glow parameter
    color *= (f * 1.8 + 0.3) * glow_mult;

    // Mouse point-light flare
    color += vec3(0.3, 0.7, 1.0) * exp(-mouse_dist * 4.0) * 0.8 * glow_mult;

    // Star dust particles
    float star_noise = hash(floor(uv * 80.0));
    if (star_noise > 0.97) {
        color += vec3(0.8, 0.9, 1.0) * (sin(t * 4.0 + star_noise * 100.0) * 0.5 + 0.5) * 0.6;
    }

    // Vignette
    float vig = 1.0 - length(v_uv - 0.5) * 0.8;
    color *= clamp(vig, 0.25, 1.0);

    fragColor = vec4(color, 1.0);
}
"#);
    reveal_strlit(r#"#version 300 es
precision highp float;

in vec2 v_uv;
out vec4 fragColor;

uniform float u_time;
uniform vec2 u_resolution;
uniform vec2 u_mouse;
uniform vec2 u_velocity;
uniform float u_scroll;
uniform vec4 u_params; // x: speed, y: warp, z: glow, w: color_shift
uniform vec4 u_ripples[5];

mat2 rot(float a) {
    float c = cos(a), s = sin(a);
    return mat2(c, -s, s, c);
}

float hash(vec2 p) {
    p = fract(p * vec2(123.34, 456.21));
    p += dot(p, p + 45.32);
    return fract(p.x * p.y);
}

float noise(vec2 p) {
    vec2 i = floor(p);
    vec2 f = fract(p);
    vec2 u = f * f * (3.0 - 2.0 * f);

    float a = hash(i);
    float b = hash(i + vec2(1.0, 0.0));
    float c = hash(i + vec2(0.0, 1.0));
    float d = hash(i + vec2(1.0, 1.0));

    return mix(mix(a, b, u.x), mix(c, d, u.x), u.y);
}

// 4 octaves (desktop nebula uses 5) keeps the per-pixel noise budget mobile friendly
float fbm(vec2 p) {
    float v = 0.0;
    float a = 0.5;
    mat2 m = rot(0.4);
    for (int i = 0; i < 4; i++) {
        v += a * noise(p);
        p = m * p * 2.02;
        a *= 0.5;
    }
    return v;
}

void main() {
    vec2 uv = (gl_FragCoord.xy - 0.5 * u_resolution) / min(u_resolution.x, u_resolution.y);

    // Scroll advances the flow phase rather than shifting uv; the noise field fills every pixel
    float t = u_time * u_params.x * 0.4 + u_scroll * 0.001;
    float warp = u_params.y;
    float glow_mult = u_params.z;
    float color_shift = u_params.w;

    // Touch gravity vortex
    vec2 touch = u_mouse * 0.5;
    vec2 to_touch = uv - touch;
    float touch_dist = length(to_touch);
    float vortex = exp(-touch_dist * 3.0) * 0.8;
    uv += rot(vortex * 4.0) * to_touch * vortex * 0.5;

    // Ripple shockwaves
    for (int i = 0; i < 5; i++) {
        if (u_ripples[i].w > 0.001) {
            vec2 r_pos = u_ripples[i].xy * 0.5;
            float d = length(uv - r_pos);
            float ring = sin(d * 20.0 - u_ripples[i].z * 8.0) * exp(-d * 3.0);
            uv += normalize(uv - r_pos + 1e-4) * ring * 0.03 * u_ripples[i].w;
        }
    }

    // Single-level domain warp (desktop uses two): 3 fbm calls instead of 5
    vec2 q = vec2(
        fbm(uv * 1.6 + t * 0.2),
        fbm(uv * 1.6 + vec2(5.2, 1.3) - t * 0.15)
    );
    float f = fbm(uv * 1.4 + 3.5 * q * warp + vec2(1.7, 9.2) + t * 0.1);

    vec3 col_deep = vec3(0.02, 0.03, 0.08);
    vec3 col_teal = vec3(0.0, 0.55, 0.8);
    vec3 col_violet = vec3(0.45, 0.15, 0.85);
    vec3 col_rose = vec3(0.95, 0.35, 0.6);

    col_teal = mix(col_teal, vec3(0.0, 0.9, 0.6), sin(color_shift * 6.28) * 0.5 + 0.5);

    vec3 color = mix(col_deep, col_teal, clamp(f * f * 3.5, 0.0, 1.0));
    color = mix(color, col_violet, clamp(length(q) * 0.9, 0.0, 1.0));
    color = mix(color, col_rose, clamp(q.y * q.y * 1.5, 0.0, 1.0) * 0.5);

    color *= (f * 1.8 + 0.3) * glow_mult;

    // Touch point-light flare
    color += vec3(0.3, 0.7, 1.0) * exp(-touch_dist * 4.0) * 0.6 * glow_mult;

    // Twinkling star dust: a soft dot inside sparse cells, rather than filling the whole cell
    vec2 star_grid = uv * 70.0;
    float star = hash(floor(star_grid));
    if (star > 0.985) {
        float dot_mask = smoothstep(0.3, 0.0, length(fract(star_grid) - 0.5));
        color += vec3(0.8, 0.9, 1.0) * dot_mask * (sin(t * 4.0 + star * 100.0) * 0.5 + 0.5) * 0.8;
    }

    float vig = 1.0 - length(v_uv - 0.5) * 0.8;
    color *= clamp(vig, 0.25, 1.0);

    fragColor = vec4(color, 1.0);
}
"#);
    reveal_strlit(r#"#version 300 es
precision highp float;

in vec2 v_uv;
out vec4 fragColor;

uniform float u_time;
uniform vec2 u_resolution;
uniform vec2 u_mouse;
uniform vec2 u_velocity;
uniform float u_scroll;
uniform vec4 u_params; // x: speed, y: warp, z: glow, w: color_shift
uniform vec4 u_ripples[5];

mat2 rot(float a) {
    float c = cos(a), s = sin(a);
    return mat2(c, -s, s, c);
}

float hash(vec2 p) {
    p = fract(p * vec2(123.34, 456.21));
    p += dot(p, p + 45.32);
    return fract(p.x * p.y);
}

float noise(vec2 p) {
    vec2 i = floor(p);
    vec2 f = fract(p);
    vec2 u = f * f * (3.0 - 2.0 * f);

    float a = hash(i);
    float b = hash(i + vec2(1.0, 0.0));
    float c = hash(i + vec2(0.0, 1.0));
    float d = hash(i + vec2(1.0, 1.0));

    return mix(mix(a, b, u.x), mix(c, d, u.x), u.y);
}

float fbm(vec2 p) {
    float v = 0.0;
    float a = 0.5;
    mat2 m = rot(0.4);
    for (int i = 0; i < 4; i++) {
        v += a * noise(p);
        p = m * p * 2.02;
        a *= 0.5;
    }
    return v;
}

// Ridged fbm: folding noise around its midpoint turns smooth clouds into thin bright strands
float ridged(vec2 p) {
    float v = 0.0;
    float a = 0.5;
    mat2 m = rot(0.7);
    for (int i = 0; i < 4; i++) {
        float n = 1.0 - abs(noise(p) * 2.0 - 1.0);
        v += a * n * n;
        p = m * p * 2.03;
        a *= 0.5;
    }
    return v;
}

void main() {
    vec2 uv = (gl_FragCoord.xy - 0.5 * u_resolution) / min(u_resolution.x, u_resolution.y);

    // Scroll advances the flow phase rather than shifting uv; the noise field fills every pixel
    float t = u_time * u_params.x * 0.35 + u_scroll * 0.001;
    float warp = u_params.y;
    float glow_mult = u_params.z;
    float color_shift = u_params.w;

    // Filaments bend around the touch point
    vec2 touch = u_mouse * 0.5;
    vec2 to_touch = uv - touch;
    float touch_dist = length(to_touch);
    float bend = exp(-touch_dist * 3.0) * 0.8;
    uv += rot(bend * 3.0) * to_touch * bend * 0.4;

    // Ripple shockwaves
    for (int i = 0; i < 5; i++) {
        if (u_ripples[i].w > 0.001) {
            vec2 r_pos = u_ripples[i].xy * 0.5;
            float d = length(uv - r_pos);
            float ring = sin(d * 20.0 - u_ripples[i].z * 8.0) * exp(-d * 3.0);
            uv += normalize(uv - r_pos + 1e-4) * ring * 0.03 * u_ripples[i].w;
        }
    }

    // Soft haze field, which also warps the filaments so they flow with it
    vec2 q = vec2(
        fbm(uv * 1.2 + t * 0.15),
        fbm(uv * 1.2 + vec2(3.1, 7.4) - t * 0.12)
    );
    float fil = ridged(uv * 1.8 + 2.5 * q * warp + vec2(t * 0.05, -t * 0.04));

    vec3 col_deep = vec3(0.02, 0.02, 0.07);
    vec3 col_haze = vec3(0.25, 0.1, 0.55);
    vec3 col_arc = vec3(0.95, 0.2, 0.7);
    vec3 col_hot = vec3(1.0, 0.8, 0.35);

    col_arc = mix(col_arc, vec3(0.1, 0.6, 1.0), sin(color_shift * 6.28) * 0.5 + 0.5);

    vec3 color = col_deep + col_haze * q.x * q.x * 1.6;
    float strand = pow(fil, 2.5);
    color += mix(col_arc, col_hot, pow(fil, 4.0)) * strand * 1.6 * glow_mult;

    // Touch point-light flare
    color += vec3(0.9, 0.4, 1.0) * exp(-touch_dist * 4.0) * 0.5 * glow_mult;

    float vig = 1.0 - length(v_uv - 0.5) * 0.8;
    color *= clamp(vig, 0.25, 1.0);

    fragColor = vec4(color, 1.0);
}
"#);
    reveal_strlit(r#"#version 300 es
precision highp float;

in vec2 v_uv;
out vec4 fragColor;

uniform float u_time;
uniform vec2 u_resolution;
uniform vec2 u_mouse;
uniform vec2 u_velocity;
uniform float u_scroll;
uniform vec4 u_params; // x: speed, y: warp, z: glow, w: color_shift
uniform vec4 u_ripples[5];

void main() {
    vec2 uv = (gl_FragCoord.xy - 0.5 * u_resolution) / min(u_resolution.x, u_resolution.y);

    // Scroll advances the animation phase rather than shifting uv, so the pulsar stays centered
    float t = u_time * u_params.x * 0.8 + u_scroll * 0.0015;
    float warp = u_params.y;
    float glow_mult = u_params.z;
    float color_shift = u_params.w;

    // Mobile touch attractor
    vec2 touch = u_mouse * 0.4;
    vec2 p = uv - touch;

    float dist = length(p);

    // Dynamic pulsating radius
    float pulse = sin(t * 3.0) * 0.04 + sin(t * 6.0) * 0.02;
    float r = 0.35 + pulse;

    // Outer harmonic wave interference rings
    float ring1 = abs(dist - 0.55 - sin(t * 1.5) * 0.05);
    float ring2 = abs(dist - 0.75 - cos(t * 2.0) * 0.04 * warp);
    float ring3 = abs(dist - 0.95 - sin(t * 2.5) * 0.03 * warp);

    float glow_core = 0.04 / (abs(dist - r) + 0.06);
    float glow_r1 = 0.015 / (ring1 + 0.04);
    float glow_r2 = 0.012 / (ring2 + 0.04);
    float glow_r3 = 0.009 / (ring3 + 0.04);

    vec3 cyan = vec3(0.05, 0.5, 1.0);
    vec3 magenta = vec3(0.9, 0.15, 0.8);
    vec3 gold = vec3(1.0, 0.8, 0.2);

    vec3 core_col = mix(cyan, magenta, sin(t * 0.5 + color_shift * 6.28) * 0.5 + 0.5);
    vec3 ring_col = mix(magenta, gold, cos(t * 0.7) * 0.5 + 0.5);

    vec3 col = vec3(0.015, 0.02, 0.06);
    col += core_col * glow_core * 1.8 * glow_mult;
    col += ring_col * (glow_r1 + glow_r2 + glow_r3) * 1.2 * glow_mult;

    // Ripple shockwaves
    for (int i = 0; i < 5; i++) {
        if (u_ripples[i].w > 0.001) {
            vec2 r_pos = u_ripples[i].xy * 0.5;
            float d = length(uv - r_pos);
            float wave = sin(d * 24.0 - u_ripples[i].z * 10.0) * exp(-d * 3.5);
            col += cyan * wave * 0.25 * u_ripples[i].w;
        }
    }

    // Vignette
    float vig = 1.0 - length(v_uv - 0.5) * 0.8;
    col *= clamp(vig, 0.25, 1.0);

    fragColor = vec4(col, 1.0);
}
"#);
}

} // verus!
